//! Placing shaped glyphs along a line of text.

use vstd::prelude::*;

use super::ttf::ttf_parse_error;

verus! {

/// A glyph as text shaping gives it: its ID, how far it moves the pen and how far it is drawn
/// from the pen, in font units
#[derive(Debug, Clone, Copy, PartialEq, Eq, Structural)]
pub struct ShapedGlyph {
    /// The glyph ID
    pub glyph_id: u32,
    /// How far the glyph moves the pen horizontally
    pub x_advance: i32,
    /// How far the glyph moves the pen vertically
    pub y_advance: i32,
    /// How far right of the pen the glyph is drawn
    pub x_offset: i32,
    /// How far above the pen the glyph is drawn
    pub y_offset: i32,
}

/// A glyph placed on a line: its ID and where its origin lies, in font units
#[derive(Debug, Clone, Copy, PartialEq, Eq, Structural)]
pub struct PlacedGlyph {
    /// The glyph ID
    pub glyph_id: u16,
    /// The x coordinate of the glyph's origin
    pub x: i64,
    /// The y coordinate of the glyph's origin
    pub y: i64,
}

/// The glyphs rustybuzz shapes a text into with the font data (face index 0), with its
/// cluster level set to monotone characters and no features.
pub uninterp spec fn rb_shape(data: Seq<u8>, text: Seq<char>) -> Seq<ShapedGlyph>;

/// Shapes a line of text with rustybuzz (`shape` with no features, after
/// `UnicodeBuffer::push_str` and `set_cluster_level`), reading each glyph's ID and position.
///
/// Trusted: rustybuzz's `Face::from_slice` gives no face exactly when ttf-parser's
/// `Face::parse` fails on the data (it calls it); shaping guesses the text's direction, script
/// and language from the text alone, so the glyphs are a function of the data and the text,
/// named `rb_shape`.
#[verifier::external_body]
pub(crate) fn shape_text(data: &[u8], text: &str) -> (r: Option<Vec<ShapedGlyph>>)
    ensures
        r is None <==> ttf_parse_error(data@) is Some,
        r matches Some(glyphs) ==> glyphs@ == rb_shape(data@, text@),
{
    let face = match rustybuzz::Face::from_slice(data, 0) {
        Some(face) => face,
        None => return None,
    };
    let mut buffer = rustybuzz::UnicodeBuffer::new();
    buffer.push_str(text);
    buffer.set_cluster_level(rustybuzz::BufferClusterLevel::MonotoneCharacters);
    let shaped = rustybuzz::shape(&face, &[], buffer);
    let mut glyphs = Vec::new();
    for (i, p) in shaped.glyph_infos().iter().zip(shaped.glyph_positions()) {
        glyphs.push(ShapedGlyph { glyph_id: i.glyph_id, x_advance: p.x_advance, y_advance: p.y_advance, x_offset: p.x_offset, y_offset: p.y_offset });
    }
    Some(glyphs)
}

/// The pen position after the given glyphs: the sum of their advances.
pub open spec fn pen_after(glyphs: Seq<ShapedGlyph>) -> (int, int)
    decreases glyphs.len(),
{
    if glyphs.len() == 0 {
        (0, 0)
    } else {
        let (x, y) = pen_after(glyphs.drop_last());
        (x + glyphs.last().x_advance, y + glyphs.last().y_advance)
    }
}

/// A glyph ID as a 16-bit one: shaping gives IDs of the font, which fit, and larger values
/// saturate.
pub open spec fn glyph_id16(id: u32) -> u16 {
    if id <= 0xffff {
        id as u16
    } else {
        0xffff
    }
}

/// Where each glyph is placed: at the pen, moved by its offset, the pen starting at the origin
/// and moving by each glyph's advance.
pub open spec fn placed(glyphs: Seq<ShapedGlyph>, k: int) -> PlacedGlyph {
    let (x, y) = pen_after(glyphs.take(k));
    PlacedGlyph {
        glyph_id: glyph_id16(glyphs[k].glyph_id),
        x: (x + glyphs[k].x_offset) as i64,
        y: (y + glyphs[k].y_offset) as i64,
    }
}

proof fn lemma_pen_bound(glyphs: Seq<ShapedGlyph>)
    ensures
        -glyphs.len() * 0x8000_0000 <= pen_after(glyphs).0 <= glyphs.len() * 0x8000_0000,
        -glyphs.len() * 0x8000_0000 <= pen_after(glyphs).1 <= glyphs.len() * 0x8000_0000,
    decreases glyphs.len(),
{
    if glyphs.len() > 0 {
        lemma_pen_bound(glyphs.drop_last());
    }
}

/// Places shaped glyphs along a line (see `placed`).
pub fn place_glyphs(glyphs: &Vec<ShapedGlyph>) -> (r: Vec<PlacedGlyph>)
    requires
        glyphs@.len() < 0x8000_0000,
    ensures
        r@.len() == glyphs@.len(),
        forall|k: int| 0 <= k < glyphs@.len() ==> r@[k] == placed(glyphs@, k),
{
    let mut r: Vec<PlacedGlyph> = Vec::new();
    let mut x: i64 = 0;
    let mut y: i64 = 0;
    let mut i: usize = 0;
    while i < glyphs.len()
        invariant
            i <= glyphs@.len() < 0x8000_0000,
            r@.len() == i,
            (x as int, y as int) == pen_after(glyphs@.take(i as int)),
            forall|k: int| 0 <= k < i ==> r@[k] == placed(glyphs@, k),
        decreases glyphs@.len() - i,
    {
        proof {
            lemma_pen_bound(glyphs@.take(i as int));
            assert(i * 0x8000_0000 <= 0x8000_0000 * 0x8000_0000) by (nonlinear_arith)
                requires
                    i < 0x8000_0000,
            ;
        }
        let g = glyphs[i];
        let id: u16 = if g.glyph_id <= 0xffff {
            g.glyph_id as u16
        } else {
            0xffff
        };
        r.push(PlacedGlyph { glyph_id: id, x: x + g.x_offset as i64, y: y + g.y_offset as i64 });
        assert(glyphs@.take(i + 1).drop_last() =~= glyphs@.take(i as int));
        x = x + g.x_advance as i64;
        y = y + g.y_advance as i64;
        i = i + 1;
    }
    r
}

/// Each glyph is placed one advance after the one before it, offsets aside, and the first at
/// the origin.
pub proof fn law_glyphs_follow_advances(glyphs: Seq<ShapedGlyph>, k: int)
    requires
        glyphs.len() < 0x8000_0000,
        0 < k < glyphs.len(),
    ensures
        placed(glyphs, k).x - glyphs[k].x_offset == placed(glyphs, k - 1).x - glyphs[k
            - 1].x_offset + glyphs[k - 1].x_advance,
        placed(glyphs, k).y - glyphs[k].y_offset == placed(glyphs, k - 1).y - glyphs[k
            - 1].y_offset + glyphs[k - 1].y_advance,
        placed(glyphs, 0).x == glyphs[0].x_offset,
        placed(glyphs, 0).y == glyphs[0].y_offset,
{
    assert(glyphs.take(k).drop_last() =~= glyphs.take(k - 1));
    assert(glyphs.take(0) =~= Seq::<ShapedGlyph>::empty());
    lemma_pen_bound(glyphs.take(k));
    lemma_pen_bound(glyphs.take(k - 1));
    assert(k * 0x8000_0000 <= 0x8000_0000 * 0x8000_0000) by (nonlinear_arith)
        requires
            k < 0x8000_0000,
    ;
    assert((k - 1) * 0x8000_0000 <= 0x8000_0000 * 0x8000_0000) by (nonlinear_arith)
        requires
            k < 0x8000_0000,
    ;
}

} // verus!
