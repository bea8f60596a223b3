//! The font parser: ttf-parser's face, OS/2 and naming tables, each kept with the font data
//! it was read from, and what the library reads of them.
//!
//! What ttf-parser reads from a font is a function of the font data alone. Each value is
//! named here as a function of the data, so that contracts elsewhere can say that a face
//! built from some data holds exactly what ttf-parser reads from that data.

use vstd::prelude::*;

use super::error::FaceParsingError;
use super::face::{GlyphBounds, NameRecord, NameRecordView, Permissions, PlatformId};

verus! {

#[verifier::external_type_specification]
#[verifier::external_body]
pub struct ExTtfFace<'a>(ttf_parser::Face<'a>);

#[verifier::external_type_specification]
#[verifier::external_body]
pub struct ExTtfOs2Table<'a>(ttf_parser::os2::Table<'a>);

#[verifier::external_type_specification]
#[verifier::external_body]
pub struct ExTtfNames<'a>(ttf_parser::name::Names<'a>);

/// A face parsed by ttf-parser, with the data it was parsed from. Only `ttf_face_parse` makes
/// one.
pub(crate) struct TtfFace<'a> {
    face: ttf_parser::Face<'a>,
    data: &'a [u8],
}

impl<'a> View for TtfFace<'a> {
    type V = Seq<u8>;

    /// The font data the face was parsed from.
    closed spec fn view(&self) -> Seq<u8> {
        self.data@
    }
}

/// The OS/2 table of a face, with the font data it was read from.
pub(crate) struct TtfOs2<'a> {
    table: ttf_parser::os2::Table<'a>,
    data: &'a [u8],
}

impl<'a> View for TtfOs2<'a> {
    type V = Seq<u8>;

    /// The font data the table was read from.
    closed spec fn view(&self) -> Seq<u8> {
        self.data@
    }
}

/// The naming table of a face, with the font data it was read from.
pub(crate) struct TtfNames<'a> {
    names: ttf_parser::name::Names<'a>,
    data: &'a [u8],
}

impl<'a> View for TtfNames<'a> {
    type V = Seq<u8>;

    /// The font data the table was read from.
    closed spec fn view(&self) -> Seq<u8> {
        self.data@
    }
}

/// Which error, if any, ttf-parser's `Face::parse` reports for the font data (face index 0).
pub uninterp spec fn ttf_parse_error(data: Seq<u8>) -> Option<FaceParsingError>;

/// Whether the font has an OS/2 table, as ttf-parser reads it.
pub uninterp spec fn ttf_has_os2(data: Seq<u8>) -> bool;

/// The embedding permissions ttf-parser reads from the font's OS/2 table.
pub uninterp spec fn ttf_os2_permission_flags(data: Seq<u8>) -> Option<Permissions>;

/// Whether the font's OS/2 table allows subsetting, as ttf-parser reads it.
pub uninterp spec fn ttf_os2_subsetting(data: Seq<u8>) -> bool;

/// Whether the font's OS/2 table allows outline embedding, as ttf-parser reads it.
pub uninterp spec fn ttf_os2_outline_embedding(data: Seq<u8>) -> bool;

/// The number of records in the font's naming table, as ttf-parser reads it.
pub uninterp spec fn ttf_name_count(data: Seq<u8>) -> u16;

/// The record at an index of the font's naming table, as ttf-parser reads it.
pub uninterp spec fn ttf_name_record(data: Seq<u8>, index: u16) -> Option<NameRecordView>;

/// The font's ascender, as ttf-parser reads it.
pub uninterp spec fn ttf_ascender(data: Seq<u8>) -> i16;

/// The font's descender, as ttf-parser reads it.
pub uninterp spec fn ttf_descender(data: Seq<u8>) -> i16;

/// The font's line gap, as ttf-parser reads it.
pub uninterp spec fn ttf_line_gap(data: Seq<u8>) -> i16;

/// The font's units per EM, as ttf-parser reads it.
pub uninterp spec fn ttf_units_per_em(data: Seq<u8>) -> u16;

/// The font's stated x-height, as ttf-parser reads it.
pub uninterp spec fn ttf_x_height(data: Seq<u8>) -> Option<i16>;

/// The font's stated capital height, as ttf-parser reads it.
pub uninterp spec fn ttf_capital_height(data: Seq<u8>) -> Option<i16>;

/// The font's number of glyphs, as ttf-parser reads it.
pub uninterp spec fn ttf_number_of_glyphs(data: Seq<u8>) -> u16;

/// The glyph ID ttf-parser finds for a character in the font's character maps.
pub uninterp spec fn ttf_glyph_index(data: Seq<u8>, code_point: char) -> Option<u16>;

/// The bounding box ttf-parser computes for a glyph of the font.
pub uninterp spec fn ttf_glyph_bbox(data: Seq<u8>, glyph_id: u16) -> Option<GlyphBounds>;

/// ttf-parser's `Face::parse` on face index 0.
///
/// Trusted: parsing is a function of the data alone, so the outcome is named by
/// `ttf_parse_error`; each of ttf-parser's error variants maps to the variant of the same name.
/// The face is kept with the data it was parsed from.
#[verifier::external_body]
pub(crate) fn ttf_face_parse<'a>(data: &'a [u8]) -> (r: Result<TtfFace<'a>, FaceParsingError>)
    ensures
        match r {
            Ok(face) => ttf_parse_error(data@) is None && face@ == data@,
            Err(e) => ttf_parse_error(data@) == Some(e),
        },
{
    match ttf_parser::Face::parse(data, 0) {
        Ok(face) => Ok(TtfFace { face, data }),
        Err(ttf_parser::FaceParsingError::MalformedFont) => Err(FaceParsingError::MalformedFont),
        Err(ttf_parser::FaceParsingError::UnknownMagic) => Err(FaceParsingError::UnknownMagic),
        Err(ttf_parser::FaceParsingError::FaceIndexOutOfBounds) => Err(
            FaceParsingError::FaceIndexOutOfBounds,
        ),
        Err(ttf_parser::FaceParsingError::NoHeadTable) => Err(FaceParsingError::NoHeadTable),
        Err(ttf_parser::FaceParsingError::NoHheaTable) => Err(FaceParsingError::NoHheaTable),
        Err(ttf_parser::FaceParsingError::NoMaxpTable) => Err(FaceParsingError::NoMaxpTable),
    }
}

/// ttf-parser's `Face::tables`, reading the OS/2 table.
///
/// Trusted: the table is there exactly when ttf-parser finds one in the data
/// (`ttf_has_os2`), and is kept with the same data.
#[verifier::external_body]
pub(crate) fn ttf_face_os2<'a>(face: &TtfFace<'a>) -> (r: Option<TtfOs2<'a>>)
    ensures
        r is Some <==> ttf_has_os2(face@),
        r matches Some(t) ==> t@ == face@,
{
    match face.face.tables().os2 {
        Some(table) => Some(TtfOs2 { table, data: face.data }),
        None => None,
    }
}

/// ttf-parser's `os2::Table::permissions` (the embedding permissions of `fsType`).
///
/// Trusted: the result is a function of the font data, named `ttf_os2_permission_flags`; each
/// of ttf-parser's variants maps to the variant of the same name.
#[verifier::external_body]
pub(crate) fn ttf_os2_permissions(table: &TtfOs2<'_>) -> (r: Option<Permissions>)
    ensures
        r == ttf_os2_permission_flags(table@),
{
    match table.table.permissions() {
        Some(ttf_parser::Permissions::Installable) => Some(Permissions::Installable),
        Some(ttf_parser::Permissions::Restricted) => Some(Permissions::Restricted),
        Some(ttf_parser::Permissions::PreviewAndPrint) => Some(Permissions::PreviewAndPrint),
        Some(ttf_parser::Permissions::Editable) => Some(Permissions::Editable),
        None => None,
    }
}

/// ttf-parser's `os2::Table::is_subsetting_allowed`.
///
/// Trusted: the result is a function of the font data, named `ttf_os2_subsetting`.
#[verifier::external_body]
pub(crate) fn ttf_os2_subsetting_allowed(table: &TtfOs2<'_>) -> (r: bool)
    ensures
        r == ttf_os2_subsetting(table@),
{
    table.table.is_subsetting_allowed()
}

/// ttf-parser's `os2::Table::is_outline_embedding_allowed`.
///
/// Trusted: the result is a function of the font data, named `ttf_os2_outline_embedding`.
#[verifier::external_body]
pub(crate) fn ttf_os2_outline_embedding_allowed(table: &TtfOs2<'_>) -> (r: bool)
    ensures
        r == ttf_os2_outline_embedding(table@),
{
    table.table.is_outline_embedding_allowed()
}

/// ttf-parser's `Face::names`.
///
/// Trusted: the naming table is kept with the same data.
#[verifier::external_body]
pub(crate) fn ttf_face_names<'a>(face: &TtfFace<'a>) -> (r: TtfNames<'a>)
    ensures
        r@ == face@,
{
    TtfNames { names: face.face.names(), data: face.data }
}

/// ttf-parser's `Names::len`, the number of name records.
///
/// Trusted: the result is a function of the font data, named `ttf_name_count`.
#[verifier::external_body]
pub(crate) fn ttf_names_len(names: &TtfNames<'_>) -> (r: u16)
    ensures
        r == ttf_name_count(names@),
{
    names.names.len()
}

/// ttf-parser's `Names::get`, with the record's fields copied.
///
/// Trusted: the result is a function of the font data and the index, named `ttf_name_record`;
/// each of ttf-parser's platform IDs maps to the variant of the same name.
/// A record's length is a 16-bit number, so its data is at most 65535 bytes long.
#[verifier::external_body]
pub(crate) fn ttf_names_get(names: &TtfNames<'_>, index: u16) -> (r: Option<NameRecord>)
    ensures
        match r {
            Some(record) => ttf_name_record(names@, index) == Some(record@),
            None => ttf_name_record(names@, index) is None,
        },
        r matches Some(record) ==> record.name@.len() <= 0xFFFF,
{
    names.names.get(index).map(|n| NameRecord {
        platform_id: match n.platform_id {
            ttf_parser::PlatformId::Unicode => PlatformId::Unicode,
            ttf_parser::PlatformId::Macintosh => PlatformId::Macintosh,
            ttf_parser::PlatformId::Iso => PlatformId::Iso,
            ttf_parser::PlatformId::Windows => PlatformId::Windows,
            ttf_parser::PlatformId::Custom => PlatformId::Custom,
        },
        encoding_id: n.encoding_id,
        language_id: n.language_id,
        name_id: n.name_id,
        name: n.name.to_vec(),
    })
}

/// Whether ttf-parser treats a name record as Unicode: every Unicode-platform record, and
/// Windows records in the symbol (0) or Unicode BMP (1) encodings.
pub open spec fn is_unicode_encoding(platform_id: PlatformId, encoding_id: u16) -> bool {
    match platform_id {
        PlatformId::Unicode => true,
        PlatformId::Windows => encoding_id == 0 || encoding_id == 1,
        _ => false,
    }
}

/// Name data read as big-endian 16-bit code units; an odd trailing byte is left out.
pub open spec fn utf16_be_units(data: Seq<u8>) -> Seq<u16> {
    Seq::new(data.len() / 2, |i: int| (data[2 * i] as int * 256 + data[2 * i + 1] as int) as u16)
}

/// UTF-16 code units decoded to characters: a unit outside the surrogate range is its own
/// character, a high surrogate followed by a low surrogate is one character, and any other
/// surrogate makes the text invalid (`None`).
pub open spec fn utf16_decode(units: Seq<u16>) -> Option<Seq<char>>
    decreases units.len(),
{
    if units.len() == 0 {
        Some(Seq::empty())
    } else {
        let u = units[0] as int;
        if u < 0xD800 || u > 0xDFFF {
            match utf16_decode(units.drop_first()) {
                Some(rest) => Some(seq![u as char] + rest),
                None => None,
            }
        } else if u <= 0xDBFF && units.len() >= 2 && 0xDC00 <= units[1] <= 0xDFFF {
            let c = 0x10000 + (u - 0xD800) * 0x400 + (units[1] - 0xDC00);
            match utf16_decode(units.subrange(2, units.len() as int)) {
                Some(rest) => Some(seq![c as char] + rest),
                None => None,
            }
        } else {
            None
        }
    }
}

/// The text of a name record that ttf-parser gives as a string: the UTF-16BE decoding of the
/// data of a Unicode record, and nothing for other records.
pub open spec fn unicode_name_text(record: NameRecordView) -> Option<Seq<char>> {
    if is_unicode_encoding(record.platform_id, record.encoding_id) {
        utf16_decode(utf16_be_units(record.name))
    } else {
        None
    }
}

/// ttf-parser's `Name::to_string` on a record.
///
/// Trusted: ttf-parser decodes only Unicode records (see `is_unicode_encoding`); it reads
/// their data as big-endian 16-bit units (an odd trailing byte is left out) and decodes them
/// with std's `String::from_utf16`, which fails on an unpaired surrogate. ttf-parser counts the
/// units in 16 bits, so the data is held to the 65535 bytes a record's length allows.
#[verifier::external_body]
pub(crate) fn ttf_name_to_string(record: &NameRecord) -> (r: Option<String>)
    requires
        record.name@.len() <= 0xFFFF,
    ensures
        match r {
            Some(s) => unicode_name_text(record@) == Some(s@),
            None => unicode_name_text(record@) is None,
        },
{
    let platform_id = match record.platform_id {
        PlatformId::Unicode => ttf_parser::PlatformId::Unicode,
        PlatformId::Macintosh => ttf_parser::PlatformId::Macintosh,
        PlatformId::Iso => ttf_parser::PlatformId::Iso,
        PlatformId::Windows => ttf_parser::PlatformId::Windows,
        PlatformId::Custom => ttf_parser::PlatformId::Custom,
    };
    let (encoding_id, language_id, name_id) = (record.encoding_id, record.language_id, record.name_id);
    ttf_parser::name::Name { platform_id, encoding_id, language_id, name_id, name: &record.name }
        .to_string()
}

/// ttf-parser's `Face::ascender`.
///
/// Trusted: the result is a function of the font data, named `ttf_ascender`.
#[verifier::external_body]
pub(crate) fn ttf_face_ascender(face: &TtfFace<'_>) -> (r: i16)
    ensures
        r == ttf_ascender(face@),
{
    face.face.ascender()
}

/// ttf-parser's `Face::descender`.
///
/// Trusted: the result is a function of the font data, named `ttf_descender`.
#[verifier::external_body]
pub(crate) fn ttf_face_descender(face: &TtfFace<'_>) -> (r: i16)
    ensures
        r == ttf_descender(face@),
{
    face.face.descender()
}

/// ttf-parser's `Face::line_gap`.
///
/// Trusted: the result is a function of the font data, named `ttf_line_gap`.
#[verifier::external_body]
pub(crate) fn ttf_face_line_gap(face: &TtfFace<'_>) -> (r: i16)
    ensures
        r == ttf_line_gap(face@),
{
    face.face.line_gap()
}

/// ttf-parser's `Face::units_per_em`.
///
/// Trusted: the result is a function of the font data, named `ttf_units_per_em`.
#[verifier::external_body]
pub(crate) fn ttf_face_units_per_em(face: &TtfFace<'_>) -> (r: u16)
    ensures
        r == ttf_units_per_em(face@),
{
    face.face.units_per_em()
}

/// ttf-parser's `Face::x_height`.
///
/// Trusted: the result is a function of the font data, named `ttf_x_height`.
#[verifier::external_body]
pub(crate) fn ttf_face_x_height(face: &TtfFace<'_>) -> (r: Option<i16>)
    ensures
        r == ttf_x_height(face@),
{
    face.face.x_height()
}

/// ttf-parser's `Face::capital_height`.
///
/// Trusted: the result is a function of the font data, named `ttf_capital_height`.
#[verifier::external_body]
pub(crate) fn ttf_face_capital_height(face: &TtfFace<'_>) -> (r: Option<i16>)
    ensures
        r == ttf_capital_height(face@),
{
    face.face.capital_height()
}

/// ttf-parser's `Face::number_of_glyphs`.
///
/// Trusted: the result is a function of the font data, named `ttf_number_of_glyphs`.
#[verifier::external_body]
pub(crate) fn ttf_face_number_of_glyphs(face: &TtfFace<'_>) -> (r: u16)
    ensures
        r == ttf_number_of_glyphs(face@),
{
    face.face.number_of_glyphs()
}

/// ttf-parser's `Face::glyph_index`, giving the glyph ID as a number.
///
/// Trusted: the result is a function of the font data and the character, named
/// `ttf_glyph_index`.
#[verifier::external_body]
pub(crate) fn ttf_face_glyph_index(face: &TtfFace<'_>, code_point: char) -> (r: Option<u16>)
    ensures
        r == ttf_glyph_index(face@, code_point),
{
    match face.face.glyph_index(code_point) {
        Some(gid) => Some(gid.0),
        None => None,
    }
}

/// ttf-parser's `Face::glyph_bounding_box`.
///
/// Trusted: the result is a function of the font data and the glyph ID, named
/// `ttf_glyph_bbox`.
#[verifier::external_body]
pub(crate) fn ttf_face_glyph_bounding_box(face: &TtfFace<'_>, glyph_id: u16) -> (r: Option<GlyphBounds>)
    ensures
        r == ttf_glyph_bbox(face@, glyph_id),
{
    match face.face.glyph_bounding_box(ttf_parser::GlyphId(glyph_id)) {
        Some(b) => Some(GlyphBounds { x_min: b.x_min, y_min: b.y_min, x_max: b.x_max, y_max: b.y_max }),
        None => None,
    }
}

} // verus!
