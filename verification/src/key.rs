//! Keys: homing types, key shapes, their classification from layout-editor key properties, and
//! the legends on a key.

use vstd::prelude::*;
use vstd::string::*;

use crate::strings::{decimal, digit, digit_char, push_decimal, str_chars, string_push};
use crate::text::{text_lines, Text};
use crate::units::{KeyUnit, Length, SUBDIVISIONS_PER_KEY_UNIT};

verus! {

/// The type of homing key
#[derive(Debug, Clone, Copy, PartialEq, Eq, Structural)]
pub enum Homing {
    /// A key with a deep (scooped) dish
    Scoop,
    /// A key with a homing bar
    Bar,
    /// A key with a homing bump
    Bump,
}

/// The shape of a key
#[derive(Debug, Clone, Copy, PartialEq, Eq, Structural)]
pub enum Shape {
    /// Not a key: only its legends are drawn
    Decal(KeySize),
    /// A regular key of the given size
    Normal(KeySize),
    /// A space bar of the given size
    Space(KeySize),
    /// A 1u homing key; without a homing type the profile's default applies
    Homing(Option<Homing>),
    /// A stepped caps lock key
    SteppedCaps,
    /// A vertical ISO enter key
    IsoVertical,
    /// A horizontal ISO enter key
    IsoHorizontal,
}

/// The dimensions of a layout-editor key: its width and height, and the position and size of
/// its second rectangle (which differs from the first only for ISO enter and stepped caps lock
/// keys), all in key units.
#[derive(Debug, Clone, Copy, PartialEq, Eq, Structural)]
pub struct KleDims {
    /// The key's `w` value
    pub w: KeyUnit,
    /// The key's `h` value
    pub h: KeyUnit,
    /// The key's `x2` value
    pub x2: KeyUnit,
    /// The key's `y2` value
    pub y2: KeyUnit,
    /// The key's `w2` value
    pub w2: KeyUnit,
    /// The key's `h2` value
    pub h2: KeyUnit,
}

/// Whether a length in key units is within a hundredth of a key unit of `target` subdivisions.
pub open spec fn near(a: KeyUnit, target: int) -> bool {
    -(SUBDIVISIONS_PER_KEY_UNIT / 100) < a.subdivisions - target < SUBDIVISIONS_PER_KEY_UNIT / 100
}

/// Whether the dimensions are those given, in hundredths of a key unit, each within a hundredth.
pub open spec fn dims_near(d: KleDims, w: int, h: int, x2: int, y2: int, w2: int, h2: int) -> bool {
    let c = SUBDIVISIONS_PER_KEY_UNIT / 100;
    near(d.w, w * c) && near(d.h, h * c) && near(d.x2, x2 * c) && near(d.y2, y2 * c) && near(
        d.w2,
        w2 * c,
    ) && near(d.h2, h2 * c)
}

/// Whether the second rectangle coincides with the first: a plain rectangular key.
pub open spec fn dims_normal(d: KleDims) -> bool {
    near(d.x2, 0) && near(d.y2, 0) && near(d.w2, d.w.subdivisions as int) && near(
        d.h2,
        d.h.subdivisions as int,
    )
}

/// Whether the key is a plain 1u key.
pub open spec fn dims_1u(d: KleDims) -> bool {
    dims_normal(d) && near(d.w, SUBDIVISIONS_PER_KEY_UNIT as int) && near(
        d.h,
        SUBDIVISIONS_PER_KEY_UNIT as int,
    )
}

/// Whether `needle` occurs in `haystack` as a contiguous run.
pub open spec fn contains_seq(haystack: Seq<char>, needle: Seq<char>) -> bool {
    exists|i: int|
        0 <= i && i + needle.len() <= haystack.len() && #[trigger] haystack.subrange(
            i,
            i + needle.len(),
        ) == needle
}

/// The shape of a layout-editor key, from its profile name, its homing and decal flags and its
/// dimensions. `None` means the key's size is not supported.
///
/// The first rule that applies wins: a 1u key whose profile mentions `scoop` or `dish`, `bar`, or
/// `bump` or `dot` is a homing key of that type; a rectangular key whose profile mentions `space`
/// is a space bar; a 1u key marked homing is a homing key of the profile's default type; a decal
/// is not a key; a rectangular key is a normal key; then the stepped caps lock (1.25u by 1u over
/// 1.75u by 1u) and the vertical (1.25u by 2u, over 1.5u by 1u a quarter unit left) and
/// horizontal (1.5u by 1u, over 1.25u by 2u a quarter unit right) ISO enter keys. Dimensions
/// compare within a hundredth of a key unit.
pub open spec fn spec_shape_from_kle(profile: Seq<char>, homing: bool, decal: bool, dims: KleDims) -> Option<
    Shape,
> {
    let is_1u = dims_1u(dims);
    let size = KeySize { width: dims.w, height: dims.h };
    if is_1u && (contains_seq(profile, seq!['s', 'c', 'o', 'o', 'p']) || contains_seq(
        profile,
        seq!['d', 'i', 's', 'h'],
    )) {
        Some(Shape::Homing(Some(Homing::Scoop)))
    } else if is_1u && contains_seq(profile, seq!['b', 'a', 'r']) {
        Some(Shape::Homing(Some(Homing::Bar)))
    } else if is_1u && (contains_seq(profile, seq!['b', 'u', 'm', 'p']) || contains_seq(
        profile,
        seq!['d', 'o', 't'],
    )) {
        Some(Shape::Homing(Some(Homing::Bump)))
    } else if dims_normal(dims) && contains_seq(profile, seq!['s', 'p', 'a', 'c', 'e']) {
        Some(Shape::Space(size))
    } else if is_1u && homing {
        Some(Shape::Homing(None))
    } else if decal {
        Some(Shape::Decal(size))
    } else if dims_normal(dims) {
        Some(Shape::Normal(size))
    } else if dims_near(dims, 125, 100, 0, 0, 175, 100) {
        Some(Shape::SteppedCaps)
    } else if dims_near(dims, 125, 200, -25, 0, 150, 100) {
        Some(Shape::IsoVertical)
    } else if dims_near(dims, 150, 100, 25, 0, 125, 200) {
        Some(Shape::IsoHorizontal)
    } else {
        None
    }
}

/// Whether a key's profile names a homing key: a scoop or dish, a bar, or a bump or dot.
pub open spec fn profile_names_homing(profile: Seq<char>) -> bool {
    ||| contains_seq(profile, seq!['s', 'c', 'o', 'o', 'p'])
    ||| contains_seq(profile, seq!['d', 'i', 's', 'h'])
    ||| contains_seq(profile, seq!['b', 'a', 'r'])
    ||| contains_seq(profile, seq!['b', 'u', 'm', 'p'])
    ||| contains_seq(profile, seq!['d', 'o', 't'])
}

/// A key marked as a decal is a decal of its own width and height, whatever its size, unless
/// it is a 1u homing key (marked homing or with a homing profile) or a space bar (a
/// rectangular key whose profile names a space).
pub proof fn law_decals_keep_their_size(profile: Seq<char>, homing: bool, dims: KleDims)
    requires
        !(dims_1u(dims) && (homing || profile_names_homing(profile))),
        !(dims_normal(dims) && contains_seq(profile, seq!['s', 'p', 'a', 'c', 'e'])),
    ensures
        spec_shape_from_kle(profile, homing, true, dims) == Some(
            Shape::Decal(KeySize { width: dims.w, height: dims.h }),
        ),
{
}

/// A key that is not a decal never reads as one.
pub proof fn law_only_decals_read_as_decals(profile: Seq<char>, homing: bool, dims: KleDims)
    ensures
        !(spec_shape_from_kle(profile, homing, false, dims) matches Some(Shape::Decal(_))),
{
}

/// Whether `needle` occurs in `haystack`.
pub fn chars_contain(haystack: &Vec<char>, needle: &Vec<char>) -> (b: bool)
    ensures
        b == contains_seq(haystack@, needle@),
{
    let h = haystack.len();
    let n = needle.len();
    if n > h {
        assert(!contains_seq(haystack@, needle@));
        return false;
    }
    let mut i: usize = 0;
    while i <= h - n
        invariant
            h == haystack@.len(),
            n == needle@.len(),
            n <= h,
            i <= h - n + 1,
            forall|k: int| 0 <= k < i ==> #[trigger] haystack@.subrange(k, k + n) != needle@,
        decreases h - n + 1 - i,
    {
        let mut j: usize = 0;
        while j < n && haystack[i + j] == needle[j]
            invariant
                h == haystack@.len(),
                n == needle@.len(),
                i + n <= h,
                j <= n,
                forall|m: int| 0 <= m < j ==> haystack@[i + m] == needle@[m],
            decreases n - j,
        {
            j = j + 1;
        }
        if j == n {
            assert(haystack@.subrange(i as int, i + n) =~= needle@);
            return true;
        }
        assert(haystack@.subrange(i as int, i + n) != needle@) by {
            assert(haystack@.subrange(i as int, i + n)[j as int] == haystack@[i + j]);
        }
        i = i + 1;
    }
    assert(!contains_seq(haystack@, needle@)) by {
        if contains_seq(haystack@, needle@) {
            let k = choose|k: int|
                0 <= k && k + n <= h && #[trigger] haystack@.subrange(k, k + n) == needle@;
            assert(k < i);
        }
    }
    false
}

/// Whether a length in key units is within a hundredth of a key unit of `target` subdivisions.
fn is_near(a: KeyUnit, target: i64) -> (b: bool)
    ensures
        b == near(a, target as int),
{
    let d: i128 = a.subdivisions as i128 - target as i128;
    -11430000 < d && d < 11430000
}

fn is_dims_near(d: KleDims, w: i64, h: i64, x2: i64, y2: i64, w2: i64, h2: i64) -> (b: bool)
    requires
        -1000 <= w <= 1000,
        -1000 <= h <= 1000,
        -1000 <= x2 <= 1000,
        -1000 <= y2 <= 1000,
        -1000 <= w2 <= 1000,
        -1000 <= h2 <= 1000,
    ensures
        b == dims_near(d, w as int, h as int, x2 as int, y2 as int, w2 as int, h2 as int),
{
    let c: i64 = 11430000;
    is_near(d.w, w * c) && is_near(d.h, h * c) && is_near(d.x2, x2 * c) && is_near(d.y2, y2 * c)
        && is_near(d.w2, w2 * c) && is_near(d.h2, h2 * c)
}

fn is_dims_normal(d: KleDims) -> (b: bool)
    ensures
        b == dims_normal(d),
{
    let dw: i128 = d.w2.subdivisions as i128 - d.w.subdivisions as i128;
    let dh: i128 = d.h2.subdivisions as i128 - d.h.subdivisions as i128;
    is_near(d.x2, 0) && is_near(d.y2, 0) && -11430000 < dw && dw < 11430000 && -11430000 < dh && dh
        < 11430000
}

/// The shape of a layout-editor key (see `spec_shape_from_kle`); `None` if its size is not
/// supported.
pub fn shape_from_kle(profile: &str, homing: bool, decal: bool, dims: KleDims) -> (r: Option<
    Shape,
>)
    ensures
        r == spec_shape_from_kle(profile@, homing, decal, dims),
{
    let p = str_chars(profile);
    let is_normal = is_dims_normal(dims);
    let is_1u = is_normal && is_near(dims.w, SUBDIVISIONS_PER_KEY_UNIT) && is_near(
        dims.h,
        SUBDIVISIONS_PER_KEY_UNIT,
    );
    let size = KeySize { width: dims.w, height: dims.h };
    if is_1u && (chars_contain(&p, &vec!['s', 'c', 'o', 'o', 'p']) || chars_contain(
        &p,
        &vec!['d', 'i', 's', 'h'],
    )) {
        Some(Shape::Homing(Some(Homing::Scoop)))
    } else if is_1u && chars_contain(&p, &vec!['b', 'a', 'r']) {
        Some(Shape::Homing(Some(Homing::Bar)))
    } else if is_1u && (chars_contain(&p, &vec!['b', 'u', 'm', 'p']) || chars_contain(
        &p,
        &vec!['d', 'o', 't'],
    )) {
        Some(Shape::Homing(Some(Homing::Bump)))
    } else if is_normal && chars_contain(&p, &vec!['s', 'p', 'a', 'c', 'e']) {
        Some(Shape::Space(size))
    } else if is_1u && homing {
        Some(Shape::Homing(None))
    } else if decal {
        Some(Shape::Decal(size))
    } else if is_normal {
        Some(Shape::Normal(size))
    } else if is_dims_near(dims, 125, 100, 0, 0, 175, 100) {
        Some(Shape::SteppedCaps)
    } else if is_dims_near(dims, 125, 200, -25, 0, 150, 100) {
        Some(Shape::IsoVertical)
    } else if is_dims_near(dims, 150, 100, 25, 0, 125, 200) {
        Some(Shape::IsoHorizontal)
    } else {
        None
    }
}

/// A single legend. `C` is the type of a colour.
#[derive(Debug, Clone)]
pub struct Legend<C> {
    /// The legend text
    pub text: Text,
    /// The legend size
    pub size_idx: usize,
    /// The legend colour
    pub color: C,
}

impl<C> Legend<C> {
    /// Create a new [`Legend`], parsing its text
    pub fn new(text: &str, size_idx: usize, color: C) -> (l: Self)
        ensures
            l.text@ == text_lines(text@),
            l.size_idx == size_idx,
            l.color == color,
    {
        Legend { text: Text::parse_from(text), size_idx, color }
    }
}

/// The nine legend positions of a key, left-to-right, top-to-bottom: position `i` is in
/// column `i % 3` and row `i / 3`.
#[derive(Debug, Clone)]
pub struct Legends<C> {
    slots: [Option<Legend<C>>; 9],
}

/// The position of the legend in the given column and row.
pub open spec fn legend_index(column: int, row: int) -> int {
    row * 3 + column
}

impl<C> Legends<C> {
    /// The legends in left-to-right, top-to-bottom order.
    pub closed spec fn spec_slots(self) -> Seq<Option<Legend<C>>> {
        self.slots@
    }

    /// There are always nine positions.
    pub proof fn lemma_nine_slots(self)
        ensures
            self.spec_slots().len() == 9,
    {
    }

    /// A set of legends with every position empty.
    pub fn empty() -> (l: Self)
        ensures
            l.spec_slots().len() == 9,
            forall|i: int| 0 <= i < 9 ==> l.spec_slots()[i] is None,
    {
        Legends { slots: [None, None, None, None, None, None, None, None, None] }
    }

    /// Legends from nine positions in left-to-right, top-to-bottom order.
    pub fn from_slots(slots: [Option<Legend<C>>; 9]) -> (l: Self)
        ensures
            l.spec_slots() == slots@,
    {
        Legends { slots }
    }

    /// Legends from three rows of three, in row-major order.
    pub fn from_rows(rows: [[Option<Legend<C>>; 3]; 3]) -> (l: Self)
        ensures
            l.spec_slots().len() == 9,
            forall|r: int, c: int|
                0 <= r < 3 && 0 <= c < 3 ==> l.spec_slots()[legend_index(c, r)]
                    == #[trigger] rows@[r]@[c],
    {
        let ghost orig = rows;
        let mut rows = rows;
        let mut slots: [Option<Legend<C>>; 9] = [None, None, None, None, None, None, None, None, None];
        let mut i: usize = 0;
        while i < 9
            invariant
                i <= 9,
                forall|k: int| i <= k < 9 ==> #[trigger] rows@[k / 3]@[k % 3] == orig@[k / 3]@[k % 3],
                forall|k: int| 0 <= k < i ==> #[trigger] slots@[k] == orig@[k / 3]@[k % 3],
            decreases 9 - i,
        {
            let r = i / 3;
            let c = i % 3;
            let mut legend: Option<Legend<C>> = None;
            std::mem::swap(&mut legend, &mut rows[r][c]);
            slots[i] = legend;
            i = i + 1;
        }
        Legends { slots }
    }

    /// The legend at position `index` (left-to-right, top-to-bottom).
    pub fn get(&self, index: usize) -> (l: &Option<Legend<C>>)
        requires
            index < 9,
        ensures
            *l == self.spec_slots()[index as int],
    {
        &self.slots[index]
    }

    /// The legend in the given column and row.
    pub fn get_at(&self, column: usize, row: usize) -> (l: &Option<Legend<C>>)
        requires
            column < 3,
            row < 3,
        ensures
            *l == self.spec_slots()[legend_index(column as int, row as int)],
    {
        self.get(row * 3 + column)
    }

    /// Replaces the legend at position `index` (left-to-right, top-to-bottom).
    pub fn set(&mut self, index: usize, legend: Option<Legend<C>>)
        requires
            index < 9,
        ensures
            final(self).spec_slots() == old(self).spec_slots().update(index as int, legend),
    {
        self.slots[index] = legend;
    }

    /// Replaces the legend in the given column and row.
    pub fn set_at(&mut self, column: usize, row: usize, legend: Option<Legend<C>>)
        requires
            column < 3,
            row < 3,
        ensures
            final(self).spec_slots() == old(self).spec_slots().update(
                legend_index(column as int, row as int),
                legend,
            ),
    {
        self.set(row * 3 + column, legend)
    }

    /// The legends in left-to-right, top-to-bottom order.
    pub fn iter(&self) -> (s: &[Option<Legend<C>>])
        ensures
            s@ == self.spec_slots(),
    {
        self.slots.as_slice()
    }

    /// The legends in left-to-right, top-to-bottom order.
    pub fn into_array(self) -> (a: [Option<Legend<C>>; 9])
        ensures
            a@ == self.spec_slots(),
    {
        self.slots
    }

    /// The number of positions that hold a legend.
    pub fn count(&self) -> (n: usize)
        ensures
            n == count_present(self.spec_slots()),
    {
        let mut n: usize = 0;
        let mut i: usize = 0;
        while i < 9
            invariant
                self.slots@.len() == 9,
                i <= 9,
                n == count_present(self.slots@.take(i as int)),
                n <= i,
            decreases 9 - i,
        {
            assert(self.slots@.take(i + 1).drop_last() =~= self.slots@.take(i as int));
            if self.slots[i].is_some() {
                n = n + 1;
            }
            i = i + 1;
        }
        assert(self.slots@.take(9) =~= self.slots@);
        n
    }
}

/// The number of present legends in a sequence of positions.
pub open spec fn count_present<C>(slots: Seq<Option<Legend<C>>>) -> nat
    decreases slots.len(),
{
    if slots.len() == 0 {
        0
    } else {
        count_present(slots.drop_last()) + if slots.last() is Some {
            1nat
        } else {
            0nat
        }
    }
}

impl<C> Default for Legends<C> {
    fn default() -> (l: Self)
        ensures
            l.spec_slots().len() == 9,
            forall|i: int| 0 <= i < 9 ==> l.spec_slots()[i] is None,
    {
        Self::empty()
    }
}

/// The size of a key, in key units
#[derive(Debug, Clone, Copy, PartialEq, Eq, Structural)]
pub struct KeySize {
    /// The width
    pub width: KeyUnit,
    /// The height
    pub height: KeyUnit,
}

impl KeySize {
    /// A key of the given width and height
    pub fn new(width: KeyUnit, height: KeyUnit) -> (s: Self)
        ensures
            s == (KeySize { width, height }),
    {
        KeySize { width, height }
    }

    /// A 1u key
    pub fn unit() -> (s: Self)
        ensures
            s.width.subdivision_count() == SUBDIVISIONS_PER_KEY_UNIT,
            s.height.subdivision_count() == SUBDIVISIONS_PER_KEY_UNIT,
    {
        KeySize { width: KeyUnit::new(1), height: KeyUnit::new(1) }
    }
}

/// A key. `P` is the type of its position and `C` that of a colour.
#[derive(Debug, Clone)]
pub struct Key<P, C> {
    /// The position of the key's top-left corner
    pub position: P,
    /// The shape of the key
    pub shape: Shape,
    /// The colour of the key
    pub color: C,
    /// The legends on the key
    pub legends: Legends<C>,
}

impl<P, C> Key<P, C> {
    /// A 1u key at the given position and of the given colour, without legends
    pub fn new(position: P, color: C) -> (k: Self)
        ensures
            k.position == position,
            k.color == color,
            k.shape matches Shape::Normal(size) && size.width.subdivision_count()
                == SUBDIVISIONS_PER_KEY_UNIT && size.height.subdivision_count()
                == SUBDIVISIONS_PER_KEY_UNIT,
            forall|i: int| 0 <= i < 9 ==> k.legends.spec_slots()[i] is None,
    {
        Key { position, shape: Shape::Normal(KeySize::unit()), color, legends: Legends::empty() }
    }
}

/// The number of hundredths of a key unit in a length of `s` subdivisions, in magnitude,
/// rounded to the nearest and halves to the even neighbour.
pub open spec fn rounded_hundredths(s: int) -> int {
    let m = (if s < 0 {
        -s
    } else {
        s
    }) * 100;
    let u = SUBDIVISIONS_PER_KEY_UNIT as int;
    let q = m / u;
    let r = m % u;
    if 2 * r > u || (2 * r == u && q % 2 == 1) {
        q + 1
    } else {
        q
    }
}

/// A length in key units written with two decimals, as `-0.25` or `1.50`.
pub open spec fn hundredths_text(v: KeyUnit) -> Seq<char> {
    let q = rounded_hundredths(v.subdivisions as int);
    (if v.subdivisions < 0 {
        seq!['-']
    } else {
        Seq::empty()
    }) + decimal((q / 100) as nat) + seq!['.', digit_char((q / 10) % 10), digit_char(q % 10)]
}

/// Appends a length in key units written with two decimals (see `hundredths_text`).
fn push_hundredths(s: &mut String, v: KeyUnit)
    ensures
        final(s)@ == old(s)@ + hundredths_text(v),
{
    let m: u128 = if v.subdivisions < 0 {
        (-(v.subdivisions as i128)) as u128
    } else {
        v.subdivisions as u128
    } * 100;
    let u: u128 = 1143000000;
    let q = m / u;
    let r = m % u;
    let q: u128 = if 2 * r > u || (2 * r == u && q % 2 == 1) {
        q + 1
    } else {
        q
    };
    if v.subdivisions < 0 {
        string_push(s, '-');
    }
    let ghost sign = s@;
    push_decimal(s, q / 100);
    string_push(s, '.');
    string_push(s, digit((q / 10) % 10));
    string_push(s, digit(q % 10));
    assert(s@ =~= old(s)@ + hundredths_text(v));
}

/// An error in a layout-editor key
#[derive(Debug, Clone, Copy, PartialEq, Eq, Structural)]
pub enum KleError {
    /// A key size not supported by `keyset`
    UnsupportedKeySize(KleDims),
}

/// The message of an unsupported key size error.
pub open spec fn unsupported_size_message(d: KleDims) -> Seq<char> {
    "unsupported non-standard key size (w: "@ + hundredths_text(d.w) + ", h: "@ + hundredths_text(
        d.h,
    ) + ", x2: "@ + hundredths_text(d.x2) + ", y2: "@ + hundredths_text(d.y2) + ", w2: "@
        + hundredths_text(d.w2) + ", h2: "@ + hundredths_text(d.h2)
        + "). Note only ISO enter and stepped caps are supported as special cases"@
}

impl KleError {
    /// The error message, with each dimension written to two decimals
    pub fn to_string(&self) -> (s: String)
        ensures
            match self {
                KleError::UnsupportedKeySize(d) => s@ == unsupported_size_message(*d),
            },
    {
        match self {
            KleError::UnsupportedKeySize(d) => {
                let mut s = String::new();
                s.append("unsupported non-standard key size (w: ");
                push_hundredths(&mut s, d.w);
                s.append(", h: ");
                push_hundredths(&mut s, d.h);
                s.append(", x2: ");
                push_hundredths(&mut s, d.x2);
                s.append(", y2: ");
                push_hundredths(&mut s, d.y2);
                s.append(", w2: ");
                push_hundredths(&mut s, d.w2);
                s.append(", h2: ");
                push_hundredths(&mut s, d.h2);
                s.append("). Note only ISO enter and stepped caps are supported as special cases");
                s
            },
        }
    }
}

/// A legend of a layout-editor key
#[derive(Debug, Clone)]
pub struct KleLegend<C> {
    /// The legend text
    pub text: String,
    /// The legend size
    pub size: usize,
    /// The legend colour
    pub color: C,
}

/// The position of a layout-editor key's top-left corner: its own position, moved left or up
/// where its second rectangle reaches further.
pub open spec fn kle_position(x: KeyUnit, y: KeyUnit, dims: KleDims) -> (int, int) {
    (
        x.subdivisions + (if dims.x2.subdivisions < 0 {
            dims.x2.subdivisions as int
        } else {
            0
        }),
        y.subdivisions + (if dims.y2.subdivisions < 0 {
            dims.y2.subdivisions as int
        } else {
            0
        }),
    )
}

/// A key from a layout-editor key at `(x, y)`: its position (see `kle_position`), its shape
/// (see `spec_shape_from_kle`), its colour and its first nine legends, each with its text
/// parsed.
pub fn key_from_kle<C>(
    x: KeyUnit,
    y: KeyUnit,
    dims: KleDims,
    profile: &str,
    homing: bool,
    decal: bool,
    color: C,
    legends: Vec<Option<KleLegend<C>>>,
) -> (r: Result<Key<(KeyUnit, KeyUnit), C>, KleError>)
    requires
        legends@.len() >= 9,
        i64::MIN <= kle_position(x, y, dims).0 <= i64::MAX,
        i64::MIN <= kle_position(x, y, dims).1 <= i64::MAX,
    ensures
        match spec_shape_from_kle(profile@, homing, decal, dims) {
            None => r == Err::<Key<(KeyUnit, KeyUnit), C>, KleError>(KleError::UnsupportedKeySize(dims)),
            Some(shape) => r matches Ok(key) && key.shape == shape && key.color == color
                && key.position.0.subdivisions == kle_position(x, y, dims).0
                && key.position.1.subdivisions == kle_position(x, y, dims).1 && forall|i: int|
                0 <= i < 9 ==> match (#[trigger] legends@[i], key.legends.spec_slots()[i]) {
                    (None, None) => true,
                    (Some(k), Some(l)) => l.text@ == text_lines(k.text@) && l.size_idx == k.size
                        && l.color == k.color,
                    _ => false,
                },
        },
{
    let shape = match shape_from_kle(profile, homing, decal, dims) {
        Some(shape) => shape,
        None => {
            return Err(KleError::UnsupportedKeySize(dims));
        },
    };
    let px = if dims.x2.subdivisions < 0 {
        x.plus(dims.x2)
    } else {
        x
    };
    let py = if dims.y2.subdivisions < 0 {
        y.plus(dims.y2)
    } else {
        y
    };
    let ghost orig = legends@;
    let mut legends = legends;
    let mut result: Legends<C> = Legends::empty();
    let mut i: usize = 0;
    while i < 9
        invariant
            i <= 9,
            legends@.len() == orig.len(),
            orig.len() >= 9,
            forall|k: int| i <= k < orig.len() ==> legends@[k] == orig[k],
            result.spec_slots().len() == 9,
            forall|k: int|
                0 <= k < i ==> match (#[trigger] orig[k], result.spec_slots()[k]) {
                    (None, None) => true,
                    (Some(kl), Some(l)) => l.text@ == text_lines(kl.text@) && l.size_idx == kl.size
                        && l.color == kl.color,
                    _ => false,
                },
            forall|k: int| i <= k < 9 ==> result.spec_slots()[k] is None,
        decreases 9 - i,
    {
        let mut slot: Option<KleLegend<C>> = None;
        std::mem::swap(&mut slot, &mut legends[i]);
        assert(slot == orig[i as int]);
        match slot {
            None => {},
            Some(kle_legend) => {
                let legend = Legend::new(kle_legend.text.as_str(), kle_legend.size, kle_legend.color);
                result.set(i, Some(legend));
            },
        }
        i = i + 1;
    }
    Ok(Key { position: (px, py), shape, color, legends: result })
}

impl<C: Copy> Legends<C> {
    /// An example non-blank set of legends: `!`, `¹`, `1` and `¡`, size 4, in the four
    /// corners, in the given colour
    pub fn example(color: C) -> (l: Self)
        ensures
            forall|i: int|
                0 <= i < 9 ==> ((#[trigger] l.spec_slots()[i]) is Some <==> (i == 0 || i == 2 || i
                    == 6 || i == 8)),
            forall|i: int|
                0 <= i < 9 ==> (#[trigger] l.spec_slots()[i] matches Some(legend) ==> legend.size_idx
                    == 4 && legend.color == color),
            l.spec_slots()[0] matches Some(legend) && legend.text@ == text_lines("!"@),
            l.spec_slots()[2] matches Some(legend) && legend.text@ == text_lines("¹"@),
            l.spec_slots()[6] matches Some(legend) && legend.text@ == text_lines("1"@),
            l.spec_slots()[8] matches Some(legend) && legend.text@ == text_lines("¡"@),
    {
        Legends::from_slots(Legend::example_set(color))
    }
}

impl<C: Copy> Legend<C> {
    /// An example non-blank set of legends: `!`, `¹`, `1` and `¡`, size 4, in the four
    /// corners, in the given colour
    pub fn example_set(color: C) -> (a: [Option<Self>; 9])
        ensures
            forall|i: int|
                0 <= i < 9 ==> ((#[trigger] a@[i]) is Some <==> (i == 0 || i == 2 || i == 6 || i
                    == 8)),
            forall|i: int|
                0 <= i < 9 ==> (#[trigger] a@[i] matches Some(legend) ==> legend.size_idx == 4
                    && legend.color == color),
            a@[0] matches Some(legend) && legend.text@ == text_lines("!"@),
            a@[2] matches Some(legend) && legend.text@ == text_lines("¹"@),
            a@[6] matches Some(legend) && legend.text@ == text_lines("1"@),
            a@[8] matches Some(legend) && legend.text@ == text_lines("¡"@),
    {
        let size: usize = 4;
        [
            Some(Legend::new("!", size, color)),
            None,
            Some(Legend::new("¹", size, color)),
            None,
            None,
            None,
            Some(Legend::new("1", size, color)),
            None,
            Some(Legend::new("¡", size, color)),
        ]
    }
}

impl From<KeySize> for Shape {
    /// A regular key of the given size
    fn from(value: KeySize) -> (s: Self) {
        Shape::Normal(value)
    }
}

impl vstd::std_specs::convert::FromSpecImpl<KeySize> for Shape {
    open spec fn obeys_from_spec() -> bool {
        true
    }

    open spec fn from_spec(value: KeySize) -> Self {
        Shape::Normal(value)
    }
}

/// Each of the nine legend positions has one column and row, and each column and row one
/// position: `get_at(column, row)` and `get(row * 3 + column)` read the same legend.
pub proof fn law_legend_positions(index: int, column: int, row: int)
    requires
        0 <= index < 9,
        0 <= column < 3,
        0 <= row < 3,
    ensures
        legend_index(index % 3, index / 3) == index,
        0 <= legend_index(column, row) < 9,
        legend_index(column, row) % 3 == column,
        legend_index(column, row) / 3 == row,
{
}

} // verus!
