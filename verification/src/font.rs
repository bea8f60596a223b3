//! Font loading: parsing a font's data, checking its permissions and reading the names and
//! metrics the drawing needs. Metrics are in font units.

pub mod error;
pub mod face;
pub mod layout;
pub mod mac_roman;
pub mod ttf;

use vstd::prelude::*;

use self::error::Error;
use self::layout::{place_glyphs, placed, rb_shape, shape_text, PlacedGlyph};
use self::face::{GlyphBounds, find_name, names_of, os2_of, permission_failure, FontFace, NAME_ID_FAMILY, NAME_ID_FULL_NAME};
use self::ttf::{ttf_capital_height, ttf_glyph_bbox, ttf_glyph_index, ttf_parse_error, ttf_x_height};

verus! {

/// A height metric of font data: the font's own value if it states one, else the height of
/// the bounding box of the glyph for a reference character.
pub open spec fn height_of(data: Seq<u8>, stated: Option<i16>, reference: char) -> Option<int> {
    match stated {
        Some(h) => Some(h as int),
        None => match ttf_glyph_index(data, reference) {
            Some(gid) => match ttf_glyph_bbox(data, gid) {
                Some(b) => Some(b.y_max - b.y_min),
                None => None,
            },
            None => None,
        },
    }
}

/// The capital height of font data: stated, else measured on `'H'`.
pub open spec fn cap_height_of(data: Seq<u8>) -> Option<int> {
    height_of(data, ttf_capital_height(data), 'H')
}

/// The x-height of font data: stated, else measured on `'x'`.
pub open spec fn x_height_of(data: Seq<u8>) -> Option<int> {
    height_of(data, ttf_x_height(data), 'x')
}

/// A font's capital height is the one it states, and else the bounding-box height of the glyph
/// its character map gives the uppercase `'H'`; its x-height is the one it states, and else
/// the height of the glyph for the lowercase `'x'`. `Font::from_ttf` gives a font exactly these
/// heights.
pub proof fn law_heights_measured_on_h_and_x(data: Seq<u8>, g: u16, b: GlyphBounds)
    ensures
        ttf_capital_height(data) matches Some(h) ==> cap_height_of(data) == Some(h as int),
        ttf_x_height(data) matches Some(h) ==> x_height_of(data) == Some(h as int),
        ttf_capital_height(data) is None && ttf_glyph_index(data, 'H') == Some(g) && ttf_glyph_bbox(
            data,
            g,
        ) == Some(b) ==> cap_height_of(data) == Some(b.y_max - b.y_min),
        ttf_x_height(data) is None && ttf_glyph_index(data, 'x') == Some(g) && ttf_glyph_bbox(
            data,
            g,
        ) == Some(b) ==> x_height_of(data) == Some(b.y_max - b.y_min),
        ttf_capital_height(data) is None && ttf_glyph_index(data, 'H') is None ==> cap_height_of(
            data,
        ) is None,
        ttf_x_height(data) is None && ttf_glyph_index(data, 'x') is None ==> x_height_of(data) is None,
{
}

/// A parsed font
#[derive(Debug)]
pub struct Font {
    face: FontFace,
    family: String,
    name: String,
    cap_height: i32,
    x_height: i32,
}

impl Font {
    pub closed spec fn spec_face(self) -> FontFace {
        self.face
    }

    pub closed spec fn spec_family(self) -> Seq<char> {
        self.family@
    }

    pub closed spec fn spec_name(self) -> Seq<char> {
        self.name@
    }

    pub closed spec fn spec_cap_height(self) -> int {
        self.cap_height as int
    }

    pub closed spec fn spec_x_height(self) -> int {
        self.x_height as int
    }

    /// The height metric of a face: its stated value, else the bounding box height of the
    /// glyph for `reference`.
    fn face_height(face: &FontFace, stated: Option<i16>, reference: char) -> (r: Option<i32>)
        ensures
            match height_of(face.spec_data(), stated, reference) {
                Some(h) => r == Some(h as i32) && h == r->0,
                None => r is None,
            },
    {
        match stated {
            Some(h) => Some(h as i32),
            None => match face.glyph_index(reference) {
                Some(gid) => match face.glyph_bounds(gid) {
                    Some(b) => Some(b.height()),
                    None => None,
                },
                None => None,
            },
        }
    }

    /// Parse a font from TrueType or OpenType format font data.
    ///
    /// Fails if the data cannot be parsed, if the font's permissions forbid its use, or if the
    /// family name, the full name, the capital height or the x-height cannot be determined.
    /// The capital height and x-height are measured on the glyphs `'H'` and `'x'` if the font
    /// does not state them.
    pub fn from_ttf(data: Vec<u8>) -> (r: Result<Font, Error>)
        ensures
            match ttf_parse_error(data@) {
                Some(e) => r matches Err(Error::ParsingError(p)) && p == e,
                None => match permission_failure(os2_of(data@)) {
                    Some(e) => r matches Err(Error::PermissionError(p)) && p == e,
                    None => if find_name(names_of(data@), NAME_ID_FAMILY) is None {
                        r matches Err(Error::MissingProperty(p)) && p@ == "font family"@
                    } else if find_name(names_of(data@), NAME_ID_FULL_NAME) is None {
                        r matches Err(Error::MissingProperty(p)) && p@ == "full font name"@
                    } else if cap_height_of(data@) is None {
                        r matches Err(Error::MissingProperty(p)) && p@ == "capital height"@
                    } else if x_height_of(data@) is None {
                        r matches Err(Error::MissingProperty(p)) && p@ == "x height"@
                    } else {
                        r matches Ok(font) && {
                            &&& font.spec_face().spec_data() == data@
                            &&& find_name(names_of(data@), NAME_ID_FAMILY) == Some(
                                font.spec_family(),
                            )
                            &&& find_name(names_of(data@), NAME_ID_FULL_NAME) == Some(
                                font.spec_name(),
                            )
                            &&& cap_height_of(data@) == Some(font.spec_cap_height())
                            &&& x_height_of(data@) == Some(font.spec_x_height())
                            &&& match ttf_capital_height(data@) {
                                Some(h) => font.spec_cap_height() == h,
                                None => ttf_glyph_index(data@, 'H') matches Some(g)
                                    && ttf_glyph_bbox(data@, g) matches Some(b)
                                    && font.spec_cap_height() == b.y_max - b.y_min,
                            }
                            &&& match ttf_x_height(data@) {
                                Some(h) => font.spec_x_height() == h,
                                None => ttf_glyph_index(data@, 'x') matches Some(g)
                                    && ttf_glyph_bbox(data@, g) matches Some(b)
                                    && font.spec_x_height() == b.y_max - b.y_min,
                            }
                        }
                    },
                },
            },
    {
        let face = match FontFace::from_ttf(data) {
            Ok(face) => face,
            Err(e) => {
                return Err(e);
            },
        };
        let family = match face.name(NAME_ID_FAMILY) {
            Some(family) => family,
            None => {
                return Err(Error::MissingProperty("font family".to_string()));
            },
        };
        let name = match face.name(NAME_ID_FULL_NAME) {
            Some(name) => name,
            None => {
                return Err(Error::MissingProperty("full font name".to_string()));
            },
        };
        let cap_height = match Self::face_height(&face, face.capital_height(), 'H') {
            Some(h) => h,
            None => {
                return Err(Error::MissingProperty("capital height".to_string()));
            },
        };
        let x_height = match Self::face_height(&face, face.x_height(), 'x') {
            Some(h) => h,
            None => {
                return Err(Error::MissingProperty("x height".to_string()));
            },
        };
        Ok(Font { face, family, name, cap_height, x_height })
    }

    /// The font's face.
    pub fn face(&self) -> (f: &FontFace)
        ensures
            *f == self.spec_face(),
    {
        &self.face
    }

    /// The font family name
    pub fn family(&self) -> (s: &str)
        ensures
            s@ == self.spec_family(),
    {
        self.family.as_str()
    }

    /// The font's full name
    pub fn name(&self) -> (s: &str)
        ensures
            s@ == self.spec_name(),
    {
        self.name.as_str()
    }

    /// The number of font units per EM
    pub fn em_size(&self) -> (v: u16)
        ensures
            v == self.spec_face().spec_units_per_em(),
    {
        self.face.units_per_em()
    }

    /// The capital height in font units. Measures the height of the uppercase `'H'` if not set
    /// by the font.
    pub fn cap_height(&self) -> (v: i32)
        ensures
            v == self.spec_cap_height(),
    {
        self.cap_height
    }

    /// The x-height in font units. Measures the height of the lowercase `'x'` if not set by the
    /// font.
    pub fn x_height(&self) -> (v: i32)
        ensures
            v == self.spec_x_height(),
    {
        self.x_height
    }

    /// The font's ascender in font units
    pub fn ascender(&self) -> (v: i32)
        ensures
            v == self.spec_face().spec_ascender(),
    {
        self.face.ascender() as i32
    }

    /// The font's descender in font units. Positive values are in a downwards direction.
    pub fn descender(&self) -> (v: i32)
        ensures
            v == -self.spec_face().spec_descender(),
    {
        -(self.face.descender() as i32)
    }

    /// The font's line gap in font units
    pub fn line_gap(&self) -> (v: i32)
        ensures
            v == self.spec_face().spec_line_gap(),
    {
        self.face.line_gap() as i32
    }

    /// The font's line height in font units: ascender plus descender plus line gap.
    pub fn line_height(&self) -> (v: i32)
        ensures
            v == self.spec_face().spec_ascender() - self.spec_face().spec_descender()
                + self.spec_face().spec_line_gap(),
    {
        self.ascender() + self.descender() + self.line_gap()
    }

    /// The number of glyph outlines in the font
    pub fn num_glyphs(&self) -> (v: usize)
        ensures
            v == self.spec_face().spec_number_of_glyphs(),
    {
        self.face.number_of_glyphs() as usize
    }

    /// Shapes a line of text with the font (see `rb_shape`) and places its glyphs along the line,
    /// in font units (see `placed`). `None` when the text shapes into 2^31 glyphs or more, too
    /// many to place.
    pub fn layout_string(&self, text: &str) -> (r: Option<Vec<PlacedGlyph>>)
        ensures
            ({
                let shaped = rb_shape(self.spec_face().spec_data(), text@);
                match r {
                    Some(glyphs) => {
                        &&& shaped.len() < 0x8000_0000
                        &&& glyphs@.len() == shaped.len()
                        &&& forall|k: int| 0 <= k < shaped.len() ==> glyphs@[k] == placed(shaped, k)
                    },
                    None => shaped.len() >= 0x8000_0000,
                }
            }),
    {
        match shape_text(self.face.data(), text) {
            Some(glyphs) => if glyphs.len() < 0x8000_0000 {
                Some(place_glyphs(&glyphs))
            } else {
                None
            },
            None => None,
        }
    }

    /// Checks if the font has a glyph for the given char.
    pub fn has_glyph(&self, code_point: char) -> (r: bool)
        ensures
            r == ttf_glyph_index(self.spec_face().spec_data(), code_point) is Some,
    {
        self.face.glyph_index(code_point).is_some()
    }
}

} // verus!
