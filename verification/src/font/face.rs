//! A font face: font data that parses, whose permissions allow us to use it, with the metadata
//! the rest of the library reads from it.

use vstd::prelude::*;

use super::error::{Error, PermissionError};
use super::ttf::{
    ttf_face_ascender, ttf_face_capital_height, ttf_face_descender, ttf_face_glyph_bounding_box,
    ttf_face_glyph_index, ttf_face_line_gap, ttf_face_names, ttf_face_number_of_glyphs,
    ttf_face_os2, ttf_face_parse, ttf_face_units_per_em, ttf_face_x_height, ttf_names_get,
    ttf_names_len, ttf_name_to_string, ttf_os2_outline_embedding_allowed, ttf_os2_permissions,
    ttf_os2_subsetting_allowed, unicode_name_text,
};
use super::ttf::{
    ttf_ascender, ttf_capital_height, ttf_descender, ttf_glyph_bbox, ttf_glyph_index,
    ttf_has_os2, ttf_line_gap, ttf_name_count, ttf_name_record, ttf_number_of_glyphs,
    ttf_os2_outline_embedding, ttf_os2_permission_flags, ttf_os2_subsetting, ttf_parse_error,
    ttf_units_per_em, ttf_x_height,
};
use super::mac_roman::{is_mac_roman_encoding, mac_roman_char, mac_roman_decode, spec_is_mac_roman_encoding};

verus! {

/// A platform ID of a name record.
#[derive(Debug, Clone, Copy, PartialEq, Eq, Structural)]
pub enum PlatformId {
    Unicode,
    Macintosh,
    Iso,
    Windows,
    Custom,
}

/// The embedding permissions in a font's OS/2 table.
#[derive(Debug, Clone, Copy, PartialEq, Eq, Structural)]
pub enum Permissions {
    Installable,
    Restricted,
    PreviewAndPrint,
    Editable,
}

/// The permission flags read from a font's OS/2 table.
#[derive(Debug, Clone, Copy, PartialEq, Eq, Structural)]
pub struct Os2Permissions {
    /// The embedding permissions, if the table states valid ones
    pub permissions: Option<Permissions>,
    /// Whether the font may be subset
    pub subsetting_allowed: bool,
    /// Whether outlines (not only bitmaps) may be embedded
    pub outline_embedding_allowed: bool,
}

/// A record of the naming table.
#[derive(Debug, Clone)]
pub struct NameRecord {
    pub platform_id: PlatformId,
    pub encoding_id: u16,
    pub language_id: u16,
    pub name_id: u16,
    /// The raw name data, in the record's encoding
    pub name: Vec<u8>,
}

/// What a name record holds, its data as a sequence of bytes.
pub struct NameRecordView {
    pub platform_id: PlatformId,
    pub encoding_id: u16,
    pub language_id: u16,
    pub name_id: u16,
    pub name: Seq<u8>,
}

impl View for NameRecord {
    type V = NameRecordView;

    open spec fn view(&self) -> NameRecordView {
        NameRecordView {
            platform_id: self.platform_id,
            encoding_id: self.encoding_id,
            language_id: self.language_id,
            name_id: self.name_id,
            name: self.name@,
        }
    }
}

/// Whether the data of each name record fits the 16-bit length of a naming-table record.
pub open spec fn names_fit(records: Seq<NameRecord>) -> bool {
    forall|i: int| 0 <= i < records.len() ==> #[trigger] records[i].name@.len() <= 0xFFFF
}

/// The views of a sequence of name records.
pub open spec fn record_views(records: Seq<NameRecord>) -> Seq<NameRecordView> {
    records.map_values(|r: NameRecord| r@)
}

/// The bounding box of a glyph, in font units.
#[derive(Debug, Clone, Copy, PartialEq, Eq, Structural)]
pub struct GlyphBounds {
    pub x_min: i16,
    pub y_min: i16,
    pub x_max: i16,
    pub y_max: i16,
}

impl GlyphBounds {
    /// The height of the box.
    pub fn height(&self) -> (h: i32)
        ensures
            h == self.y_max - self.y_min,
    {
        self.y_max as i32 - self.y_min as i32
    }
}

/// The name ID of the font family name.
pub const NAME_ID_FAMILY: u16 = 1;

/// The name ID of the full font name.
pub const NAME_ID_FULL_NAME: u16 = 4;

// ---------------------------------------------------------------------------------------------
// Permission checks and name lookup
// ---------------------------------------------------------------------------------------------

/// Which permission, if any, forbids using a font with these OS/2 flags. A font without an
/// OS/2 table sets no restriction.
pub open spec fn permission_failure(os2: Option<Os2Permissions>) -> Option<PermissionError> {
    match os2 {
        None => None,
        Some(t) => if t.permissions == Some(Permissions::Restricted) {
            Some(PermissionError::RestrictedLicense)
        } else if !t.subsetting_allowed {
            Some(PermissionError::NoSubsetting)
        } else if !t.outline_embedding_allowed {
            Some(PermissionError::BitmapEmbeddingOnly)
        } else {
            None
        },
    }
}

/// Checks a font's permissions (if set). A restricted license is reported first, then a ban on
/// subsetting, then a ban on outline embedding.
pub fn check_permissions(os2: Option<Os2Permissions>) -> (r: Result<(), PermissionError>)
    ensures
        match permission_failure(os2) {
            None => r is Ok,
            Some(e) => r == Err::<(), PermissionError>(e),
        },
{
    match os2 {
        None => Ok(()),
        Some(t) => {
            let restricted = match t.permissions {
                Some(Permissions::Restricted) => true,
                _ => false,
            };
            if restricted {
                Err(PermissionError::RestrictedLicense)
            } else if !t.subsetting_allowed {
                Err(PermissionError::NoSubsetting)
            } else if !t.outline_embedding_allowed {
                Err(PermissionError::BitmapEmbeddingOnly)
            } else {
                Ok(())
            }
        },
    }
}

/// The text of the first record with the given name ID that decodes as Unicode.
pub open spec fn first_unicode_name(records: Seq<NameRecordView>, name_id: u16) -> Option<
    Seq<char>,
>
    decreases records.len(),
{
    if records.len() == 0 {
        None
    } else if records[0].name_id == name_id && unicode_name_text(records[0]) is Some {
        unicode_name_text(records[0])
    } else {
        first_unicode_name(records.drop_first(), name_id)
    }
}

/// The text of the first record with the given name ID that is in standard Mac Roman.
pub open spec fn first_mac_roman_name(records: Seq<NameRecordView>, name_id: u16) -> Option<
    Seq<char>,
>
    decreases records.len(),
{
    if records.len() == 0 {
        None
    } else if records[0].name_id == name_id && spec_is_mac_roman_encoding(
        records[0].platform_id,
        records[0].encoding_id,
        records[0].language_id,
    ) {
        Some(records[0].name.map_values(|b: u8| mac_roman_char(b)))
    } else {
        first_mac_roman_name(records.drop_first(), name_id)
    }
}

/// The string for a name ID: a Unicode record is preferred; otherwise a Mac Roman one.
pub open spec fn find_name(records: Seq<NameRecordView>, name_id: u16) -> Option<Seq<char>> {
    match first_unicode_name(records, name_id) {
        Some(s) => Some(s),
        None => first_mac_roman_name(records, name_id),
    }
}

/// Finds the string for the given name ID in a list of name records.
pub fn name_in_records(records: &Vec<NameRecord>, name_id: u16) -> (r: Option<String>)
    requires
        names_fit(records@),
    ensures
        match r {
            Some(s) => find_name(record_views(records@), name_id) == Some(s@),
            None => find_name(record_views(records@), name_id) is None,
        },
{
    let n = records.len();
    let ghost views = record_views(records@);
    let mut i: usize = 0;
    assert(views.skip(0) =~= views);
    while i < n
        invariant
            n == records@.len(),
            views == record_views(records@),
            names_fit(records@),
            i <= n,
            first_unicode_name(views, name_id) == first_unicode_name(views.skip(i as int), name_id),
        decreases n - i,
    {
        let ghost rest = views.skip(i as int);
        assert(rest[0] == records@[i as int]@);
        assert(rest.drop_first() =~= views.skip(i + 1));
        if records[i].name_id == name_id {
            if let Some(s) = ttf_name_to_string(&records[i]) {
                return Some(s);
            }
        }
        i = i + 1;
    }
    assert(views.skip(n as int) =~= Seq::<NameRecordView>::empty());
    let mut i: usize = 0;
    while i < n
        invariant
            n == records@.len(),
            views == record_views(records@),
            i <= n,
            first_unicode_name(views, name_id) is None,
            first_mac_roman_name(views, name_id) == first_mac_roman_name(
                views.skip(i as int),
                name_id,
            ),
        decreases n - i,
    {
        let ghost rest = views.skip(i as int);
        assert(rest[0] == records@[i as int]@);
        assert(rest.drop_first() =~= views.skip(i + 1));
        let r = &records[i];
        if r.name_id == name_id && is_mac_roman_encoding(r.platform_id, r.encoding_id, r.language_id) {
            return Some(mac_roman_decode(r.name.as_slice()));
        }
        i = i + 1;
    }
    assert(views.skip(n as int) =~= Seq::<NameRecordView>::empty());
    None
}

/// The OS/2 permission flags ttf-parser reads from the font data, if it has an OS/2 table.
pub open spec fn os2_of(data: Seq<u8>) -> Option<Os2Permissions> {
    if ttf_has_os2(data) {
        Some(
            Os2Permissions {
                permissions: ttf_os2_permission_flags(data),
                subsetting_allowed: ttf_os2_subsetting(data),
                outline_embedding_allowed: ttf_os2_outline_embedding(data),
            },
        )
    } else {
        None
    }
}

/// The records of the font's naming table from `index` on, up to the first that ttf-parser
/// cannot read.
pub open spec fn readable_names_from(data: Seq<u8>, index: int) -> Seq<NameRecordView>
    decreases ttf_name_count(data) - index,
{
    if index < 0 || index >= ttf_name_count(data) {
        Seq::empty()
    } else {
        match ttf_name_record(data, index as u16) {
            Some(r) => seq![r] + readable_names_from(data, index + 1),
            None => Seq::empty(),
        }
    }
}

/// The records of the font's naming table, up to the first that ttf-parser cannot read.
pub open spec fn names_of(data: Seq<u8>) -> Seq<NameRecordView> {
    readable_names_from(data, 0)
}

// ---------------------------------------------------------------------------------------------
// The face
// ---------------------------------------------------------------------------------------------

/// A parsed font face. It keeps the font data (which always parses) and the metadata read from
/// it.
#[derive(Debug)]
pub struct FontFace {
    data: Vec<u8>,
    os2: Option<Os2Permissions>,
    names: Vec<NameRecord>,
    ascender: i16,
    descender: i16,
    line_gap: i16,
    units_per_em: u16,
    x_height: Option<i16>,
    capital_height: Option<i16>,
    number_of_glyphs: u16,
}

impl FontFace {
    /// The data parses, its permissions allow its use, and each field holds what ttf-parser
    /// reads from the data.
    #[verifier::type_invariant]
    spec fn inv(self) -> bool {
        &&& ttf_parse_error(self.data@) is None
        &&& self.os2 == os2_of(self.data@)
        &&& permission_failure(self.os2) is None
        &&& record_views(self.names@) == names_of(self.data@)
        &&& names_fit(self.names@)
        &&& self.ascender == ttf_ascender(self.data@)
        &&& self.descender == ttf_descender(self.data@)
        &&& self.line_gap == ttf_line_gap(self.data@)
        &&& self.units_per_em == ttf_units_per_em(self.data@)
        &&& self.x_height == ttf_x_height(self.data@)
        &&& self.capital_height == ttf_capital_height(self.data@)
        &&& self.number_of_glyphs == ttf_number_of_glyphs(self.data@)
    }

    /// The font data.
    pub closed spec fn spec_data(self) -> Seq<u8> {
        self.data@
    }

    /// The OS/2 permission flags the font states, if it has an OS/2 table.
    pub open spec fn spec_os2(self) -> Option<Os2Permissions> {
        os2_of(self.spec_data())
    }

    /// The records of the naming table, up to the first that cannot be read.
    pub open spec fn spec_names(self) -> Seq<NameRecordView> {
        names_of(self.spec_data())
    }

    pub open spec fn spec_ascender(self) -> i16 {
        ttf_ascender(self.spec_data())
    }

    pub open spec fn spec_descender(self) -> i16 {
        ttf_descender(self.spec_data())
    }

    pub open spec fn spec_line_gap(self) -> i16 {
        ttf_line_gap(self.spec_data())
    }

    pub open spec fn spec_units_per_em(self) -> u16 {
        ttf_units_per_em(self.spec_data())
    }

    pub open spec fn spec_x_height(self) -> Option<i16> {
        ttf_x_height(self.spec_data())
    }

    pub open spec fn spec_capital_height(self) -> Option<i16> {
        ttf_capital_height(self.spec_data())
    }

    pub open spec fn spec_number_of_glyphs(self) -> u16 {
        ttf_number_of_glyphs(self.spec_data())
    }

    /// Parses a face from TrueType or OpenType font data and checks the font's permissions.
    ///
    /// Data that does not parse gives ttf-parser's error. Otherwise the face is returned unless
    /// the OS/2 permission flags forbid its use, which gives the first failing permission (see
    /// `permission_failure`); a font without an OS/2 table sets no restriction.
    pub fn from_ttf(data: Vec<u8>) -> (r: Result<FontFace, Error>)
        ensures
            match ttf_parse_error(data@) {
                Some(e) => r matches Err(Error::ParsingError(p)) && p == e,
                None => match permission_failure(os2_of(data@)) {
                    Some(e) => r matches Err(Error::PermissionError(p)) && p == e,
                    None => r matches Ok(face) && face.spec_data() == data@,
                },
            },
    {
        let parsed = ttf_face_parse(data.as_slice());
        let face = match parsed {
            Err(e) => {
                return Err(Error::ParsingError(e));
            },
            Ok(face) => face,
        };
        // Check font permissions (if set). We assume the user has read the font's license and
        // knows what they're doing unless the font tells us otherwise.
        let os2 = match ttf_face_os2(&face) {
            None => None,
            Some(table) => Some(
                Os2Permissions {
                    permissions: ttf_os2_permissions(&table),
                    subsetting_allowed: ttf_os2_subsetting_allowed(&table),
                    outline_embedding_allowed: ttf_os2_outline_embedding_allowed(&table),
                },
            ),
        };
        match check_permissions(os2) {
            Err(e) => {
                return Err(Error::PermissionError(e));
            },
            Ok(()) => {},
        }
        // Read the naming table up to the first record that cannot be read
        let names_table = ttf_face_names(&face);
        let count = ttf_names_len(&names_table);
        let mut names: Vec<NameRecord> = Vec::new();
        let mut i: u16 = 0;
        assert(record_views(names@) =~= Seq::<NameRecordView>::empty());
        while i < count
            invariant_except_break
                i <= count,
            invariant
                count == ttf_name_count(data@),
                names_table@ == data@,
                names_fit(names@),
                record_views(names@) + readable_names_from(data@, i as int) == names_of(data@),
            ensures
                record_views(names@) == names_of(data@),
            decreases count - i,
        {
            let ghost before = names@;
            match ttf_names_get(&names_table, i) {
                Some(record) => {
                    names.push(record);
                    assert(record_views(names@) =~= record_views(before) + seq![record@]);
                    assert(readable_names_from(data@, i as int) =~= seq![record@]
                        + readable_names_from(data@, i + 1));
                },
                None => {
                    assert(readable_names_from(data@, i as int) =~= Seq::<NameRecordView>::empty());
                    assert(record_views(names@) + Seq::<NameRecordView>::empty() =~= record_views(
                        names@,
                    ));
                    break;
                },
            }
            i = i + 1;
        }
        proof {
            if i >= count {
                assert(readable_names_from(data@, i as int) =~= Seq::<NameRecordView>::empty());
                assert(record_views(names@) + Seq::<NameRecordView>::empty() =~= record_views(
                    names@,
                ));
            }
        }
        let ascender = ttf_face_ascender(&face);
        let descender = ttf_face_descender(&face);
        let line_gap = ttf_face_line_gap(&face);
        let units_per_em = ttf_face_units_per_em(&face);
        let x_height = ttf_face_x_height(&face);
        let capital_height = ttf_face_capital_height(&face);
        let number_of_glyphs = ttf_face_number_of_glyphs(&face);
        Ok(
            FontFace {
                data,
                os2,
                names,
                ascender,
                descender,
                line_gap,
                units_per_em,
                x_height,
                capital_height,
                number_of_glyphs,
            },
        )
    }

    /// The font data.
    pub fn data(&self) -> (d: &[u8])
        ensures
            d@ == self.spec_data(),
            ttf_parse_error(d@) is None,
    {
        proof {
            use_type_invariant(self);
        }
        self.data.as_slice()
    }

    /// The records of the naming table.
    pub fn names(&self) -> (n: &Vec<NameRecord>)
        ensures
            record_views(n@) == self.spec_names(),
            names_fit(n@),
    {
        proof {
            use_type_invariant(self);
        }
        &self.names
    }

    /// Finds the string for the given name ID: a Unicode record is preferred; otherwise a record
    /// in standard Mac Roman is decoded.
    pub fn name(&self, name_id: u16) -> (r: Option<String>)
        ensures
            match r {
                Some(s) => find_name(self.spec_names(), name_id) == Some(s@),
                None => find_name(self.spec_names(), name_id) is None,
            },
    {
        proof {
            use_type_invariant(self);
        }
        name_in_records(&self.names, name_id)
    }

    pub fn ascender(&self) -> (v: i16)
        ensures
            v == self.spec_ascender(),
    {
        proof {
            use_type_invariant(self);
        }
        self.ascender
    }

    pub fn descender(&self) -> (v: i16)
        ensures
            v == self.spec_descender(),
    {
        proof {
            use_type_invariant(self);
        }
        self.descender
    }

    pub fn line_gap(&self) -> (v: i16)
        ensures
            v == self.spec_line_gap(),
    {
        proof {
            use_type_invariant(self);
        }
        self.line_gap
    }

    pub fn units_per_em(&self) -> (v: u16)
        ensures
            v == self.spec_units_per_em(),
    {
        proof {
            use_type_invariant(self);
        }
        self.units_per_em
    }

    pub fn x_height(&self) -> (v: Option<i16>)
        ensures
            v == self.spec_x_height(),
    {
        proof {
            use_type_invariant(self);
        }
        self.x_height
    }

    pub fn capital_height(&self) -> (v: Option<i16>)
        ensures
            v == self.spec_capital_height(),
    {
        proof {
            use_type_invariant(self);
        }
        self.capital_height
    }

    pub fn number_of_glyphs(&self) -> (v: u16)
        ensures
            v == self.spec_number_of_glyphs(),
    {
        proof {
            use_type_invariant(self);
        }
        self.number_of_glyphs
    }

    /// The glyph ID that the font's character maps give a character, if any.
    pub fn glyph_index(&self, code_point: char) -> (r: Option<u16>)
        ensures
            r == ttf_glyph_index(self.spec_data(), code_point),
    {
        proof {
            use_type_invariant(self);
        }
        match ttf_face_parse(self.data.as_slice()) {
            Ok(face) => ttf_face_glyph_index(&face, code_point),
            Err(_) => None,
        }
    }

    /// The bounding box of a glyph, if it has one.
    pub fn glyph_bounds(&self, glyph_id: u16) -> (r: Option<GlyphBounds>)
        ensures
            r == ttf_glyph_bbox(self.spec_data(), glyph_id),
    {
        proof {
            use_type_invariant(self);
        }
        match ttf_face_parse(self.data.as_slice()) {
            Ok(face) => ttf_face_glyph_bounding_box(&face, glyph_id),
            Err(_) => None,
        }
    }
}

} // verus!
