//! Keyboard profiles: the shape of key tops and bottoms, the legend geometry for each legend
//! size and the homing key variants, with the rules that build a profile from its description.

use vstd::prelude::*;

use crate::geom::{span, OffsetRect, Point, Rect, Vector};
use crate::key::Homing;
use crate::strings::{str_chars, string_from_chars};
use crate::units::{
    ConvertFrom, Dot, Inch, KeyUnit, Length, Mm, SUBDIVISIONS_PER_INCH, SUBDIVISIONS_PER_KEY_UNIT,
    SUBDIVISIONS_PER_MM,
};

verus! {

/// A side of a rectangle
#[derive(Debug, Clone, Copy, PartialEq, Eq, Structural)]
pub enum Side {
    /// The top side
    Top,
    /// The bottom side
    Bottom,
    /// The left side
    Left,
    /// The right side
    Right,
}

/// The sides in the order in which a margin description lists them.
pub open spec fn side_at(i: int) -> Side {
    if i == 0 {
        Side::Top
    } else if i == 1 {
        Side::Bottom
    } else if i == 2 {
        Side::Left
    } else {
        Side::Right
    }
}

/// The position of a side in that order.
pub open spec fn side_index(side: Side) -> int {
    match side {
        Side::Top => 0,
        Side::Bottom => 1,
        Side::Left => 2,
        Side::Right => 3,
    }
}

/// The name of a side in a margin description.
pub open spec fn side_name(side: Side) -> Seq<char> {
    match side {
        Side::Top => seq!['t', 'o', 'p'],
        Side::Bottom => seq!['b', 'o', 't', 't', 'o', 'm'],
        Side::Left => seq!['l', 'e', 'f', 't'],
        Side::Right => seq!['r', 'i', 'g', 'h', 't'],
    }
}

/// The side with the given name, if any.
pub open spec fn side_named(name: Seq<char>) -> Option<Side> {
    if name == side_name(Side::Top) {
        Some(Side::Top)
    } else if name == side_name(Side::Bottom) {
        Some(Side::Bottom)
    } else if name == side_name(Side::Left) {
        Some(Side::Left)
    } else if name == side_name(Side::Right) {
        Some(Side::Right)
    } else {
        None
    }
}

/// The parts of `s` between the dashes in it (`"top-left"` gives `"top"` and `"left"`; a string
/// with no dash is its only part).
pub open spec fn split_dash(s: Seq<char>) -> Seq<Seq<char>>
    decreases s.len(),
{
    if s.len() == 0 {
        seq![Seq::empty()]
    } else {
        let init = split_dash(s.drop_last());
        if s.last() == '-' {
            init.push(Seq::empty())
        } else {
            init.update(init.len() - 1, init.last().push(s.last()))
        }
    }
}

proof fn lemma_split_dash_nonempty(s: Seq<char>)
    ensures
        split_dash(s).len() >= 1,
    decreases s.len(),
{
    if s.len() > 0 {
        lemma_split_dash_nonempty(s.drop_last());
    }
}

/// What went wrong in a margin description, as a specification value.
pub enum MarginFault {
    /// A key names no side
    UnknownField(Seq<char>),
    /// A side is given twice
    DuplicateField(Side),
    /// A side is not given
    MissingField(Side),
}

/// An error in a margin description
#[derive(Debug, Clone, PartialEq, Eq)]
pub enum MarginError {
    /// A key names no side
    UnknownField(String),
    /// A side is given twice
    DuplicateField(Side),
    /// A side is not given
    MissingField(Side),
}

impl View for MarginError {
    type V = MarginFault;

    open spec fn view(&self) -> MarginFault {
        match self {
            MarginError::UnknownField(s) => MarginFault::UnknownField(s@),
            MarginError::DuplicateField(side) => MarginFault::DuplicateField(*side),
            MarginError::MissingField(side) => MarginFault::MissingField(*side),
        }
    }
}

/// The sides given so far (in the order top, bottom, left, right) after giving `value` to each
/// side named by `parts`.
pub open spec fn give_parts(sides: Seq<Option<Dot>>, parts: Seq<Seq<char>>, value: Dot) -> Result<
    Seq<Option<Dot>>,
    MarginFault,
>
    decreases parts.len(),
{
    if parts.len() == 0 {
        Ok(sides)
    } else {
        match give_parts(sides, parts.drop_last(), value) {
            Err(e) => Err(e),
            Ok(s) => match side_named(parts.last()) {
                None => Err(MarginFault::UnknownField(parts.last())),
                Some(side) => if s[side_index(side)] is Some {
                    Err(MarginFault::DuplicateField(side))
                } else {
                    Ok(s.update(side_index(side), Some(value)))
                },
            },
        }
    }
}

/// The sides given by a list of entries: each entry gives its value to every side named in its
/// dash-separated key.
pub open spec fn give_entries(entries: Seq<(Seq<char>, Dot)>) -> Result<
    Seq<Option<Dot>>,
    MarginFault,
>
    decreases entries.len(),
{
    if entries.len() == 0 {
        Ok(seq![None, None, None, None])
    } else {
        match give_entries(entries.drop_last()) {
            Err(e) => Err(e),
            Ok(s) => give_parts(s, split_dash(entries.last().0), entries.last().1),
        }
    }
}

/// The margin given by a list of entries, or the first thing wrong with it.
pub open spec fn margin_from_entries(entries: Seq<(Seq<char>, Dot)>) -> Result<
    OffsetRect,
    MarginFault,
> {
    match give_entries(entries) {
        Err(e) => Err(e),
        Ok(s) => if s[0] is None {
            Err(MarginFault::MissingField(Side::Top))
        } else if s[1] is None {
            Err(MarginFault::MissingField(Side::Bottom))
        } else if s[2] is None {
            Err(MarginFault::MissingField(Side::Left))
        } else if s[3] is None {
            Err(MarginFault::MissingField(Side::Right))
        } else {
            Ok(OffsetRect { top: s[0]->0, right: s[3]->0, bottom: s[1]->0, left: s[2]->0 })
        },
    }
}

/// Whether `chars` spells `name`.
fn chars_are(chars: &Vec<char>, name: &[char]) -> (b: bool)
    ensures
        b == (chars@ == name@),
{
    if chars.len() != name.len() {
        return false;
    }
    let mut i: usize = 0;
    while i < chars.len()
        invariant
            chars@.len() == name@.len(),
            i <= chars@.len(),
            forall|k: int| 0 <= k < i ==> chars@[k] == name@[k],
        decreases chars@.len() - i,
    {
        if chars[i] != name[i] {
            return false;
        }
        i = i + 1;
    }
    assert(chars@ =~= name@);
    true
}

/// The side with the given name, if any.
fn find_side(name: &Vec<char>) -> (r: Option<Side>)
    ensures
        r == side_named(name@),
{
    if chars_are(name, &['t', 'o', 'p']) {
        Some(Side::Top)
    } else if chars_are(name, &['b', 'o', 't', 't', 'o', 'm']) {
        Some(Side::Bottom)
    } else if chars_are(name, &['l', 'e', 'f', 't']) {
        Some(Side::Left)
    } else if chars_are(name, &['r', 'i', 'g', 'h', 't']) {
        Some(Side::Right)
    } else {
        None
    }
}

fn side_slot(side: Side) -> (i: usize)
    ensures
        i == side_index(side),
{
    match side {
        Side::Top => 0,
        Side::Bottom => 1,
        Side::Left => 2,
        Side::Right => 3,
    }
}

/// The parts of `chars` between its dashes.
fn split_on_dash(chars: &Vec<char>) -> (parts: Vec<Vec<char>>)
    ensures
        parts@.map_values(|p: Vec<char>| p@) == split_dash(chars@),
{
    let mut parts: Vec<Vec<char>> = Vec::new();
    let mut current: Vec<char> = Vec::new();
    let mut i: usize = 0;
    while i < chars.len()
        invariant
            i <= chars@.len(),
            parts@.map_values(|p: Vec<char>| p@).push(current@) == split_dash(chars@.take(i as int)),
        decreases chars@.len() - i,
    {
        let c = chars[i];
        let ghost before = chars@.take(i as int);
        assert(chars@.take(i + 1).drop_last() =~= before);
        proof {
            lemma_split_dash_nonempty(before);
        }
        if c == '-' {
            let mut done: Vec<char> = Vec::new();
            std::mem::swap(&mut done, &mut current);
            parts.push(done);
            assert(parts@.map_values(|p: Vec<char>| p@).push(current@) =~= split_dash(
                chars@.take(i + 1),
            ));
        } else {
            current.push(c);
            assert(parts@.map_values(|p: Vec<char>| p@).push(current@) =~= split_dash(
                chars@.take(i + 1),
            ));
        }
        i = i + 1;
    }
    parts.push(current);
    assert(chars@.take(chars@.len() as int) =~= chars@);
    assert(parts@.map_values(|p: Vec<char>| p@) =~= split_dash(chars@));
    parts
}

/// The margin of a legend from its description as a list of `(key, value)` entries, in the
/// order given. Each key names one side or several joined by dashes (`"top-bottom"`), and
/// every side must be given exactly once. On error, the first problem met is reported: a key
/// that names no side, then a side given twice, then, once every entry is read, the first
/// side (in the order top, bottom, left, right) that was not given.
pub fn margin_from_entries_exec(entries: &Vec<(String, Dot)>) -> (r: Result<
    OffsetRect,
    MarginError,
>)
    ensures
        match (r, margin_from_entries(entries@.map_values(|e: (String, Dot)| (e.0@, e.1)))) {
            (Ok(a), Ok(b)) => a == b,
            (Err(a), Err(b)) => a@ == b,
            _ => false,
        },
{
    let ghost view = entries@.map_values(|e: (String, Dot)| (e.0@, e.1));
    let mut sides: [Option<Dot>; 4] = [None, None, None, None];
    let mut i: usize = 0;
    while i < entries.len()
        invariant
            i <= entries@.len(),
            view == entries@.map_values(|e: (String, Dot)| (e.0@, e.1)),
            give_entries(view.take(i as int)) == Ok::<Seq<Option<Dot>>, MarginFault>(sides@),
        decreases entries@.len() - i,
    {
        assert(view.take(i + 1).drop_last() =~= view.take(i as int));
        let key = str_chars(entries[i].0.as_str());
        let value = entries[i].1;
        let parts = split_on_dash(&key);
        let ghost pview = parts@.map_values(|p: Vec<char>| p@);
        let ghost start = sides@;
        assert(pview == split_dash(view[i as int].0));
        let mut j: usize = 0;
        while j < parts.len()
            invariant
                j <= parts@.len(),
                i < entries@.len(),
                view == entries@.map_values(|e: (String, Dot)| (e.0@, e.1)),
                give_entries(view.take(i as int)) == Ok::<Seq<Option<Dot>>, MarginFault>(start),
                pview == split_dash(view[i as int].0),
                value == view[i as int].1,
                pview == parts@.map_values(|p: Vec<char>| p@),
                give_parts(start, pview.take(j as int), value) == Ok::<
                    Seq<Option<Dot>>,
                    MarginFault,
                >(sides@),
            decreases parts@.len() - j,
        {
            assert(pview.take(j + 1).drop_last() =~= pview.take(j as int));
            match find_side(&parts[j]) {
                None => {
                    proof {
                        lemma_give_parts_prefix_error(
                            start,
                            pview,
                            j as int,
                            value,
                            MarginFault::UnknownField(pview[j as int]),
                        );
                        assert(view.take(i + 1).drop_last() =~= view.take(i as int));
                        assert(view.take(i + 1).last() == view[i as int]);
                        lemma_give_entries_prefix_error(
                            view,
                            i as int,
                            MarginFault::UnknownField(pview[j as int]),
                        );
                    }
                    return Err(MarginError::UnknownField(string_from_chars(parts[j].as_slice())));
                },
                Some(side) => {
                    let k = side_slot(side);
                    if sides[k].is_some() {
                        proof {
                            lemma_give_parts_prefix_error(
                                start,
                                pview,
                                j as int,
                                value,
                                MarginFault::DuplicateField(side),
                            );
                            assert(view.take(i + 1).drop_last() =~= view.take(i as int));
                            assert(view.take(i + 1).last() == view[i as int]);
                            lemma_give_entries_prefix_error(
                                view,
                                i as int,
                                MarginFault::DuplicateField(side),
                            );
                        }
                        return Err(MarginError::DuplicateField(side));
                    }
                    sides[k] = Some(value);
                },
            }
            j = j + 1;
        }
        assert(pview.take(pview.len() as int) =~= pview);
        i = i + 1;
    }
    assert(view.take(view.len() as int) =~= view);
    match (sides[0], sides[1], sides[2], sides[3]) {
        (None, _, _, _) => Err(MarginError::MissingField(Side::Top)),
        (_, None, _, _) => Err(MarginError::MissingField(Side::Bottom)),
        (_, _, None, _) => Err(MarginError::MissingField(Side::Left)),
        (_, _, _, None) => Err(MarginError::MissingField(Side::Right)),
        (Some(top), Some(bottom), Some(left), Some(right)) => Ok(
            OffsetRect { top, right, bottom, left },
        ),
    }
}

/// An error met after a prefix of the parts is the error of all of them.
proof fn lemma_give_parts_prefix_error(
    sides: Seq<Option<Dot>>,
    parts: Seq<Seq<char>>,
    j: int,
    value: Dot,
    e: MarginFault,
)
    requires
        0 <= j < parts.len(),
        give_parts(sides, parts.take(j + 1), value) == Err::<Seq<Option<Dot>>, MarginFault>(e),
    ensures
        give_parts(sides, parts, value) == Err::<Seq<Option<Dot>>, MarginFault>(e),
    decreases parts.len() - j,
{
    if j + 1 < parts.len() {
        assert(parts.take(j + 2).drop_last() =~= parts.take(j + 1));
        lemma_give_parts_prefix_error(sides, parts, j + 1, value, e);
    } else {
        assert(parts.take(j + 1) =~= parts);
    }
}

/// An error met in the parts of entry `i` is the error of all the entries.
proof fn lemma_give_entries_prefix_error(entries: Seq<(Seq<char>, Dot)>, i: int, e: MarginFault)
    requires
        0 <= i < entries.len(),
        give_entries(entries.take(i + 1)) == Err::<Seq<Option<Dot>>, MarginFault>(e),
    ensures
        give_entries(entries) == Err::<Seq<Option<Dot>>, MarginFault>(e),
    decreases entries.len() - i,
{
    if i + 1 < entries.len() {
        assert(entries.take(i + 2).drop_last() =~= entries.take(i + 1));
        lemma_give_entries_prefix_error(entries, i + 1, e);
    } else {
        assert(entries.take(i + 1) =~= entries);
    }
}

/// A length in dots of the given number of subdivisions.
fn dots(n: i64) -> (d: Dot)
    ensures
        span(d) == n,
{
    Dot::from_subdivisions(n)
}

/// The homing type named in a profile description (its aliases included).
pub open spec fn homing_named(name: Seq<char>) -> Option<Homing> {
    if name == seq!['s', 'c', 'o', 'o', 'p'] || name == seq!['d', 'e', 'e', 'p', '-', 'd', 'i', 's', 'h']
        || name == seq!['d', 'i', 's', 'h'] {
        Some(Homing::Scoop)
    } else if name == seq!['b', 'a', 'r'] || name == seq!['l', 'i', 'n', 'e'] {
        Some(Homing::Bar)
    } else if name == seq!['b', 'u', 'm', 'p'] || name == seq!['n', 'u', 'b'] || name == seq![
        'd',
        'o',
        't',
    ] || name == seq!['n', 'i', 'p', 'p', 'l', 'e'] {
        Some(Homing::Bump)
    } else {
        None
    }
}

/// The homing type of the given name: `scoop` (also `deep-dish` or `dish`), `bar` (also
/// `line`) or `bump` (also `nub`, `dot` or `nipple`); `None` for any other name.
pub fn homing_from_name(name: &str) -> (h: Option<Homing>)
    ensures
        h == homing_named(name@),
{
    let n = str_chars(name);
    if chars_are(&n, &['s', 'c', 'o', 'o', 'p']) || chars_are(
        &n,
        &['d', 'e', 'e', 'p', '-', 'd', 'i', 's', 'h'],
    ) || chars_are(&n, &['d', 'i', 's', 'h']) {
        Some(Homing::Scoop)
    } else if chars_are(&n, &['b', 'a', 'r']) || chars_are(&n, &['l', 'i', 'n', 'e']) {
        Some(Homing::Bar)
    } else if chars_are(&n, &['b', 'u', 'm', 'p']) || chars_are(&n, &['n', 'u', 'b']) || chars_are(
        &n,
        &['d', 'o', 't'],
    ) || chars_are(&n, &['n', 'i', 'p', 'p', 'l', 'e']) {
        Some(Homing::Bump)
    } else {
        None
    }
}

/// The type of a profile
#[derive(Debug, Clone, Copy, PartialEq, Eq, Structural)]
pub enum Type {
    /// A cylindrical profile, e.g. Cherry or OEM
    Cylindrical {
        /// The depth of the key's dish
        depth: Dot,
    },
    /// A cylindrical profile, e.g. SA or KAT
    Spherical {
        /// The depth of the key's dish
        depth: Dot,
    },
    /// A flat profile, e.g. G20 or chiclet
    Flat,
}

/// The depth of a key's dish in a profile of the given type (zero for a flat profile).
pub open spec fn type_depth(t: Type) -> int {
    match t {
        Type::Cylindrical { depth } => span(depth),
        Type::Spherical { depth } => span(depth),
        Type::Flat => 0,
    }
}

impl Type {
    /// Returns the depth of a key's dish. This is zero for [`Type::Flat`]
    pub fn depth(self) -> (d: Dot)
        ensures
            span(d) == type_depth(self),
            self matches Type::Cylindrical { depth } ==> d == depth,
            self matches Type::Spherical { depth } ==> d == depth,
    {
        match self {
            Type::Cylindrical { depth } => depth,
            Type::Spherical { depth } => depth,
            Type::Flat => Dot::zero(),
        }
    }
}

/// A length of the given number of subdivisions, as a dot length.
pub open spec fn dot_of(n: int) -> Dot {
    Dot { subdivisions: n as i64 }
}

/// The default profile type: cylindrical, 1 mm deep.
pub open spec fn default_type() -> Type {
    Type::Cylindrical { depth: dot_of(SUBDIVISIONS_PER_MM as int) }
}

impl Default for Type {
    /// A cylindrical profile 1 mm deep, about the depth of OEM profile
    fn default() -> (t: Self)
        ensures
            t == default_type(),
            t matches Type::Cylindrical { depth } && span(depth) == SUBDIVISIONS_PER_MM,
    {
        Type::Cylindrical { depth: Dot::convert_from(Mm::new(1)) }
    }
}

/// What is wrong with the type of a profile description
#[derive(Debug, Clone, PartialEq, Eq)]
pub enum TypeError {
    /// The type has a name that is not known
    UnknownVariant(String),
    /// A cylindrical or spherical profile without a depth
    MissingDepth,
    /// A flat profile given a depth
    UnexpectedDepth,
}

/// What is wrong with the type of a profile description, as a specification value
pub enum TypeFault {
    /// The type has a name that is not known
    UnknownVariant(Seq<char>),
    /// A cylindrical or spherical profile without a depth
    MissingDepth,
    /// A flat profile given a depth
    UnexpectedDepth,
}

impl View for TypeError {
    type V = TypeFault;

    open spec fn view(&self) -> TypeFault {
        match self {
            TypeError::UnknownVariant(s) => TypeFault::UnknownVariant(s@),
            TypeError::MissingDepth => TypeFault::MissingDepth,
            TypeError::UnexpectedDepth => TypeFault::UnexpectedDepth,
        }
    }
}

/// The type names of a profile description: `cylindrical`, `spherical`, and `flat` (also
/// `chiclet`).
pub open spec fn type_named(name: Seq<char>, depth: Option<Dot>) -> Result<Type, TypeFault> {
    if name == seq!['c', 'y', 'l', 'i', 'n', 'd', 'r', 'i', 'c', 'a', 'l'] {
        match depth {
            Some(d) => Ok(Type::Cylindrical { depth: d }),
            None => Err(TypeFault::MissingDepth),
        }
    } else if name == seq!['s', 'p', 'h', 'e', 'r', 'i', 'c', 'a', 'l'] {
        match depth {
            Some(d) => Ok(Type::Spherical { depth: d }),
            None => Err(TypeFault::MissingDepth),
        }
    } else if name == seq!['f', 'l', 'a', 't'] || name == seq!['c', 'h', 'i', 'c', 'l', 'e', 't'] {
        match depth {
            Some(_) => Err(TypeFault::UnexpectedDepth),
            None => Ok(Type::Flat),
        }
    } else {
        Err(TypeFault::UnknownVariant(name))
    }
}

/// The profile type of a description's type name and depth. A cylindrical or spherical
/// profile needs a depth and a flat one takes none.
pub fn type_from_name(name: &str, depth: Option<Dot>) -> (r: Result<Type, TypeError>)
    ensures
        match (r, type_named(name@, depth)) {
            (Ok(a), Ok(b)) => a == b,
            (Err(a), Err(b)) => a@ == b,
            _ => false,
        },
{
    let n = str_chars(name);
    if chars_are(&n, &['c', 'y', 'l', 'i', 'n', 'd', 'r', 'i', 'c', 'a', 'l']) {
        match depth {
            Some(d) => Ok(Type::Cylindrical { depth: d }),
            None => Err(TypeError::MissingDepth),
        }
    } else if chars_are(&n, &['s', 'p', 'h', 'e', 'r', 'i', 'c', 'a', 'l']) {
        match depth {
            Some(d) => Ok(Type::Spherical { depth: d }),
            None => Err(TypeError::MissingDepth),
        }
    } else if chars_are(&n, &['f', 'l', 'a', 't']) || chars_are(&n, &['c', 'h', 'i', 'c', 'l', 'e', 't']) {
        match depth {
            Some(_) => Err(TypeError::UnexpectedDepth),
            None => Ok(Type::Flat),
        }
    } else {
        Err(TypeError::UnknownVariant(string_from_chars(n.as_slice())))
    }
}

/// Scooped (a.k.a. deep dish) homing key properties
#[derive(Debug, Clone, Copy, PartialEq, Eq, Structural)]
pub struct ScoopProps {
    /// The depth of the scooped dish
    pub depth: Dot,
}

/// Homing bar properties
#[derive(Debug, Clone, Copy, PartialEq, Eq, Structural)]
pub struct BarProps {
    /// The size of the bar
    pub size: Vector,
    /// The length of the bar from the center of the key top
    pub y_offset: Dot,
}

/// Homing bump (a.k.a. nub or nipple) properties
#[derive(Debug, Clone, Copy, PartialEq, Eq, Structural)]
pub struct BumpProps {
    /// The diameter of the bump
    pub diameter: Dot,
    /// The length of the bump from the center of the key top
    pub y_offset: Dot,
}

/// Homing key properties
#[derive(Debug, Clone, Copy, PartialEq, Eq, Structural)]
pub struct HomingProps {
    /// The default type of homing key for this profile
    pub default: Homing,
    /// Properties for scooped homing keys
    pub scoop: ScoopProps,
    /// Properties for barred homing keys
    pub bar: BarProps,
    /// Properties for keys with a homing bump
    pub bump: BumpProps,
}

/// The default homing properties: bars; a 2 mm scoop; a bar 0.15 in by 0.02 in, 0.25 in
/// from the centre; a bump 0.02 in across at the centre.
pub open spec fn default_homing_props() -> HomingProps {
    HomingProps {
        default: Homing::Bar,
        scoop: ScoopProps { depth: dot_of(120000000) },
        bar: BarProps {
            size: Vector { x: dot_of(228600000), y: dot_of(30480000) },
            y_offset: dot_of(381000000),
        },
        bump: BumpProps { diameter: dot_of(30480000), y_offset: dot_of(0) },
    }
}

impl Default for HomingProps {
    /// Homing bars by default; a scoop twice the depth of the default profile's dish; a bar
    /// 0.15 in by 0.02 in, 0.25 in from the centre of the key top; a bump 0.02 in across at the
    /// centre
    fn default() -> (h: Self)
        ensures
            h == default_homing_props(),
            h.default == Homing::Bar,
            span(h.scoop.depth) == 2 * SUBDIVISIONS_PER_MM,
            span(h.bar.size.x) == 15 * SUBDIVISIONS_PER_INCH / 100,
            span(h.bar.size.y) == 2 * SUBDIVISIONS_PER_INCH / 100,
            span(h.bar.y_offset) == SUBDIVISIONS_PER_INCH / 4,
            span(h.bump.diameter) == 2 * SUBDIVISIONS_PER_INCH / 100,
            span(h.bump.y_offset) == 0,
    {
        let depth = Type::default().depth();
        HomingProps {
            default: Homing::Bar,
            scoop: ScoopProps { depth: depth.times(2) },
            bar: BarProps {
                size: Vector::new(dots(228600000), dots(30480000)),
                y_offset: dots(381000000),
            },
            bump: BumpProps { diameter: dots(30480000), y_offset: Dot::zero() },
        }
    }
}

/// The geometry of a legend.
#[derive(Debug, Clone, Copy, PartialEq, Eq, Structural)]
pub struct LegendGeom {
    /// The height of the legend text (the height of an uppercase letter, not the font size).
    pub height: Dot,
    /// The margin between the legend and the edge of the key top.
    pub margin: OffsetRect,
}

/// The profile's legend geometry mapping.
///
/// When using a KLE layout, size 3 in KLE is mapped to `modifier`, 4 to `symbol`, and 5 to
/// `alpha`.
#[derive(Debug, Clone, Copy, PartialEq, Eq, Structural)]
pub struct LegendGeomMap {
    /// The legend geometry for alpha and mono legends
    pub alpha: LegendGeom,
    /// The legend geometry for symbol and number row legends
    pub symbol: LegendGeom,
    /// The legend geometry for modifier legends
    pub modifier: LegendGeom,
}

/// The approximate legend height for a layout-editor legend size, in subdivisions: the editor
/// draws a legend of size `s` at `6 + 2 * s` pixels on a 72 pixel key, sizes above 9 counting as 9.
pub open spec fn kle_approx_height(kle_size: int) -> int {
    (6 + 2 * (if kle_size < 9 {
        kle_size
    } else {
        9
    })) * SUBDIVISIONS_PER_KEY_UNIT / 72
}

/// The legend height for a layout-editor size: the profile's own for sizes 3, 4 and 5, the
/// approximation otherwise.
pub open spec fn height_for_size(map: LegendGeomMap, kle_size: int) -> int {
    if kle_size == 3 {
        span(map.modifier.height)
    } else if kle_size == 4 {
        span(map.symbol.height)
    } else if kle_size == 5 {
        span(map.alpha.height)
    } else {
        kle_approx_height(kle_size)
    }
}

/// The legend margin for a layout-editor size: the modifier margin up to size 3, the symbol
/// margin for size 4 and the alpha margin from size 5.
pub open spec fn margin_for_size(map: LegendGeomMap, kle_size: int) -> OffsetRect {
    if kle_size <= 3 {
        map.modifier.margin
    } else if kle_size == 4 {
        map.symbol.margin
    } else {
        map.alpha.margin
    }
}

/// A legend size and margin given in a profile description, either of which may be left out.
#[derive(Debug, Clone, Copy, PartialEq, Eq, Structural)]
pub struct SizeAndMargin {
    /// The height of the legend
    pub size: Option<Dot>,
    /// The margin around the legend
    pub margin: Option<OffsetRect>,
}

/// The legend geometry from a description's size and margin, falling back first to the
/// description's shared margin and then to the default geometry.
pub open spec fn geom_from_description(
    given: SizeAndMargin,
    shared_margin: Option<OffsetRect>,
    default: LegendGeom,
) -> LegendGeom {
    LegendGeom {
        height: match given.size {
            Some(h) => h,
            None => default.height,
        },
        margin: match given.margin {
            Some(m) => m,
            None => match shared_margin {
                Some(m) => m,
                None => default.margin,
            },
        },
    }
}

impl LegendGeom {
    fn from_description(
        given: SizeAndMargin,
        shared_margin: Option<OffsetRect>,
        default: LegendGeom,
    ) -> (g: Self)
        ensures
            g == geom_from_description(given, shared_margin, default),
    {
        LegendGeom {
            height: match given.size {
                Some(h) => h,
                None => default.height,
            },
            margin: match given.margin {
                Some(m) => m,
                None => match shared_margin {
                    Some(m) => m,
                    None => default.margin,
                },
            },
        }
    }
}

impl LegendGeomMap {
    /// Get the legend geometry for the given KLE size
    pub fn for_kle_size(&self, kle_size: usize) -> (g: LegendGeom)
        ensures
            span(g.height) == height_for_size(*self, kle_size as int),
            g.margin == margin_for_size(*self, kle_size as int),
    {
        LegendGeom {
            height: self.height_for_kle_size(kle_size),
            margin: self.margin_for_kle_size(kle_size),
        }
    }

    /// Get the legend height for the given KLE size
    pub fn height_for_kle_size(&self, kle_size: usize) -> (h: Dot)
        ensures
            span(h) == height_for_size(*self, kle_size as int),
    {
        if kle_size == 3 {
            self.modifier.height
        } else if kle_size == 4 {
            self.symbol.height
        } else if kle_size == 5 {
            self.alpha.height
        } else {
            Self::kle_approx(kle_size)
        }
    }

    /// Get the legend margin for the given KLE size
    pub fn margin_for_kle_size(&self, kle_size: usize) -> (m: OffsetRect)
        ensures
            m == margin_for_size(*self, kle_size as int),
    {
        if kle_size <= 3 {
            self.modifier.margin
        } else if kle_size == 4 {
            self.symbol.margin
        } else {
            self.alpha.margin
        }
    }

    /// Approximates the legend height for a KLE size
    pub fn kle_approx(kle_size: usize) -> (h: Dot)
        ensures
            span(h) == kle_approx_height(kle_size as int),
    {
        let size: i64 = if kle_size < 9 {
            kle_size as i64
        } else {
            9
        };
        dots((6 + 2 * size) * 15875000)
    }

    /// The legend geometry of a description that gives a size and margin for each kind of
    /// legend and a margin shared by those that give none; what is left out is taken from the
    /// default geometry.
    pub fn from_sizes(
        alpha: SizeAndMargin,
        symbol: SizeAndMargin,
        modifier: SizeAndMargin,
        shared_margin: Option<OffsetRect>,
    ) -> (m: Self)
        ensures
            m.alpha == geom_from_description(alpha, shared_margin, default_legend_geom_map().alpha),
            m.symbol == geom_from_description(symbol, shared_margin, default_legend_geom_map().symbol),
            m.modifier == geom_from_description(
                modifier,
                shared_margin,
                default_legend_geom_map().modifier,
            ),
    {
        let default = Self::default();
        LegendGeomMap {
            alpha: LegendGeom::from_description(alpha, shared_margin, default.alpha),
            symbol: LegendGeom::from_description(symbol, shared_margin, default.symbol),
            modifier: LegendGeom::from_description(modifier, shared_margin, default.modifier),
        }
    }

    /// The legend geometry of a description that gives only a margin, shared by all legends;
    /// the heights are the default ones.
    pub fn from_margin(margin: OffsetRect) -> (m: Self)
        ensures
            m.alpha == (LegendGeom { height: default_legend_geom_map().alpha.height, margin }),
            m.symbol == (LegendGeom { height: default_legend_geom_map().symbol.height, margin }),
            m.modifier == (LegendGeom { height: default_legend_geom_map().modifier.height, margin }),
    {
        let default = Self::default();
        LegendGeomMap {
            alpha: LegendGeom { height: default.alpha.height, margin },
            symbol: LegendGeom { height: default.symbol.height, margin },
            modifier: LegendGeom { height: default.modifier.height, margin },
        }
    }
}

/// The default legend geometry: the approximated heights for sizes 5, 4 and 3 and a margin of
/// 0.05 key units on every side.
pub open spec fn default_legend_geom_map() -> LegendGeomMap {
    let margin_dot = Dot { subdivisions: 57150000 };
    let margin = OffsetRect { top: margin_dot, right: margin_dot, bottom: margin_dot, left: margin_dot };
    LegendGeomMap {
        alpha: LegendGeom { height: Dot { subdivisions: kle_approx_height(5) as i64 }, margin },
        symbol: LegendGeom { height: Dot { subdivisions: kle_approx_height(4) as i64 }, margin },
        modifier: LegendGeom { height: Dot { subdivisions: kle_approx_height(3) as i64 }, margin },
    }
}

impl Default for LegendGeomMap {
    fn default() -> (m: Self)
        ensures
            m == default_legend_geom_map(),
    {
        let margin = OffsetRect::splat(Dot::convert_from(KeyUnit::from_subdivisions(57150000)));
        LegendGeomMap {
            alpha: LegendGeom { height: Self::kle_approx(5), margin },
            symbol: LegendGeom { height: Self::kle_approx(4), margin },
            modifier: LegendGeom { height: Self::kle_approx(3), margin },
        }
    }
}

/// The bound within which the lengths of a profile are held, so that the geometry derived
/// from them stays within the machine's integers.
pub open spec fn profile_bound() -> int {
    0x0100_0000_0000_0000
}

/// A key top surface
#[derive(Debug, Clone, Copy, PartialEq, Eq, Structural)]
pub struct TopSurface {
    /// The size of the key top
    pub size: Vector,
    /// The corner radius for the key top
    pub radius: Dot,
    /// The offset of the key top relative to the key bottom
    pub y_offset: Dot,
}

/// A rectangle with rounded corners
#[derive(Debug, Clone, Copy, PartialEq, Eq, Structural)]
pub struct RoundRect {
    /// The rectangle
    pub rect: Rect,
    /// The horizontal and vertical radius of the corners
    pub radii: Vector,
}

/// The centre of a 1u key, half a key unit from its top-left corner each way, in subdivisions.
pub open spec fn key_center() -> int {
    SUBDIVISIONS_PER_KEY_UNIT / 2
}

impl TopSurface {
    /// Whether the surface's lengths are within the profile bound
    pub open spec fn bounded(self) -> bool {
        self.size.within(profile_bound()) && crate::geom::within(self.radius, profile_bound())
            && crate::geom::within(self.y_offset, profile_bound())
    }

    /// Get the key top as a rectangle: the top's size, centred half a key unit in and
    /// `y_offset` below the centre of a 1u key
    pub fn to_rect(&self) -> (r: Rect)
        requires
            self.bounded(),
        ensures
            span(r.min.x) == key_center() - span(self.size.x) / 2,
            span(r.min.y) == key_center() + span(self.y_offset) - span(self.size.y) / 2,
            span(r.max.x) == span(r.min.x) + span(self.size.x),
            span(r.max.y) == span(r.min.y) + span(self.size.y),
    {
        let half = Dot::convert_from(KeyUnit::from_subdivisions(571500000));
        let center = Point::new(half, half.plus(self.y_offset));
        Rect::from_center_and_size(center, self.size)
    }

    /// Get the key top as a rounded rectangle
    pub fn to_round_rect(&self) -> (r: RoundRect)
        requires
            self.bounded(),
        ensures
            span(r.rect.min.x) == key_center() - span(self.size.x) / 2,
            span(r.rect.min.y) == key_center() + span(self.y_offset) - span(self.size.y) / 2,
            span(r.rect.max.x) == span(r.rect.min.x) + span(self.size.x),
            span(r.rect.max.y) == span(r.rect.min.y) + span(self.size.y),
            r.radii == (Vector { x: self.radius, y: self.radius }),
    {
        RoundRect { rect: self.to_rect(), radii: Vector::splat(self.radius) }
    }
}

/// The default key top: 0.660 by 0.735 key units, corners 0.065 key units in radius, 0.0775
/// key units above the centre.
pub open spec fn default_top_surface() -> TopSurface {
    TopSurface {
        size: Vector { x: dot_of(754380000), y: dot_of(840105000) },
        radius: dot_of(74295000),
        y_offset: dot_of(-88582500),
    }
}

impl Default for TopSurface {
    /// A key top 0.660 by 0.735 key units with corners 0.065 key units in radius, 0.0775 key
    /// units above the centre
    fn default() -> (t: Self)
        ensures
            t == default_top_surface(),
            span(t.size.x) == 660 * SUBDIVISIONS_PER_KEY_UNIT / 1000,
            span(t.size.y) == 735 * SUBDIVISIONS_PER_KEY_UNIT / 1000,
            span(t.radius) == 65 * SUBDIVISIONS_PER_KEY_UNIT / 1000,
            span(t.y_offset) == -775 * SUBDIVISIONS_PER_KEY_UNIT / 10000,
    {
        TopSurface {
            size: Vector::new(dots(754380000), dots(840105000)),
            radius: dots(74295000),
            y_offset: dots(-88582500),
        }
    }
}

/// A key bottom surface
#[derive(Debug, Clone, Copy, PartialEq, Eq, Structural)]
pub struct BottomSurface {
    /// The size of the key bottom
    pub size: Vector,
    /// The corner radius of the key bottom
    pub radius: Dot,
}

impl BottomSurface {
    /// Whether the surface's lengths are within the profile bound
    pub open spec fn bounded(self) -> bool {
        self.size.within(profile_bound()) && crate::geom::within(self.radius, profile_bound())
    }

    /// Get the key bottom as a rectangle: the bottom's size, centred on the centre of a 1u key
    pub fn to_rect(&self) -> (r: Rect)
        requires
            self.bounded(),
        ensures
            span(r.min.x) == key_center() - span(self.size.x) / 2,
            span(r.min.y) == key_center() - span(self.size.y) / 2,
            span(r.max.x) == span(r.min.x) + span(self.size.x),
            span(r.max.y) == span(r.min.y) + span(self.size.y),
    {
        let half = Dot::convert_from(KeyUnit::from_subdivisions(571500000));
        Rect::from_center_and_size(Point::splat(half), self.size)
    }

    /// Get the key bottom as a rounded rectangle
    pub fn to_round_rect(&self) -> (r: RoundRect)
        requires
            self.bounded(),
        ensures
            span(r.rect.min.x) == key_center() - span(self.size.x) / 2,
            span(r.rect.min.y) == key_center() - span(self.size.y) / 2,
            span(r.rect.max.x) == span(r.rect.min.x) + span(self.size.x),
            span(r.rect.max.y) == span(r.rect.min.y) + span(self.size.y),
            r.radii == (Vector { x: self.radius, y: self.radius }),
    {
        RoundRect { rect: self.to_rect(), radii: Vector::splat(self.radius) }
    }
}

/// The default key bottom: 0.95 key units square, corners 0.065 key units in radius.
pub open spec fn default_bottom_surface() -> BottomSurface {
    BottomSurface {
        size: Vector { x: dot_of(1085850000), y: dot_of(1085850000) },
        radius: dot_of(74295000),
    }
}

impl Default for BottomSurface {
    /// A key bottom 0.95 key units square with corners 0.065 key units in radius
    fn default() -> (b: Self)
        ensures
            b == default_bottom_surface(),
            span(b.size.x) == 95 * SUBDIVISIONS_PER_KEY_UNIT / 100,
            span(b.size.y) == 95 * SUBDIVISIONS_PER_KEY_UNIT / 100,
            span(b.radius) == 65 * SUBDIVISIONS_PER_KEY_UNIT / 1000,
    {
        BottomSurface { size: Vector::splat(dots(1085850000)), radius: dots(74295000) }
    }
}

/// A keyboard profile
#[derive(Debug, Clone, Copy, PartialEq, Eq, Structural)]
pub struct Profile {
    /// The type of profile
    pub typ: Type,
    /// The shape of the bottom surface
    pub bottom: BottomSurface,
    /// The shape of the top surface
    pub top: TopSurface,
    /// The legend size and margin geometry mapping
    pub legend_geom: LegendGeomMap,
    /// Homing properties
    pub homing: HomingProps,
}

/// The default profile: every part at its default.
pub open spec fn default_profile() -> Profile {
    Profile {
        typ: default_type(),
        bottom: default_bottom_surface(),
        top: default_top_surface(),
        legend_geom: default_legend_geom_map(),
        homing: default_homing_props(),
    }
}

impl Default for Profile {
    fn default() -> (p: Self)
        ensures
            p == default_profile(),
            p.typ matches Type::Cylindrical { depth } && span(depth) == SUBDIVISIONS_PER_MM,
            p.legend_geom == default_legend_geom_map(),
            p.homing.default == Homing::Bar,
            p.top.bounded(),
            p.bottom.bounded(),
    {
        Profile {
            typ: Type::default(),
            bottom: BottomSurface::default(),
            top: TopSurface::default(),
            legend_geom: LegendGeomMap::default(),
            homing: HomingProps::default(),
        }
    }
}

/// With the default legend geometry, the legend height of every layout-editor size is the
/// approximation of that size, and the margin is the same for every size.
pub proof fn law_default_geometry_follows_sizes(kle_size: int, other_size: int)
    ensures
        height_for_size(default_legend_geom_map(), kle_size) == kle_approx_height(kle_size),
        margin_for_size(default_legend_geom_map(), kle_size) == margin_for_size(
            default_legend_geom_map(),
            other_size,
        ),
{
}

/// The approximate legend height grows with the legend size up to size 9 and stays the same
/// beyond it.
pub proof fn law_approx_height_monotonic(a: int, b: int)
    requires
        0 <= a <= b,
    ensures
        kle_approx_height(a) <= kle_approx_height(b),
        b >= 9 ==> kle_approx_height(b) == kle_approx_height(9),
        b <= 9 && a < b ==> kle_approx_height(a) < kle_approx_height(b),
{
}

/// The legend margin depends only on which of the three kinds a legend size falls in.
pub proof fn law_margin_by_kind(map: LegendGeomMap, a: int, b: int)
    ensures
        (a <= 3 && b <= 3) ==> margin_for_size(map, a) == margin_for_size(map, b),
        (a >= 5 && b >= 5) ==> margin_for_size(map, a) == margin_for_size(map, b),
{
}

/// Whether one of the dash-separated parts of an entry's key names the side.
pub open spec fn entry_names(entry: (Seq<char>, Dot), side: Side) -> bool {
    split_dash(entry.0).contains(side_name(side))
}

proof fn lemma_side_named(p: Seq<char>, side: Side)
    ensures
        (side_named(p) == Some(side)) <==> (p == side_name(side)),
{
    assert(side_name(Side::Top) != side_name(Side::Bottom)) by {
        assert(side_name(Side::Top).len() != side_name(Side::Bottom).len());
    }
    assert(side_name(Side::Top) != side_name(Side::Left)) by {
        assert(side_name(Side::Top).len() != side_name(Side::Left).len());
    }
    assert(side_name(Side::Top) != side_name(Side::Right)) by {
        assert(side_name(Side::Top).len() != side_name(Side::Right).len());
    }
    assert(side_name(Side::Bottom) != side_name(Side::Left)) by {
        assert(side_name(Side::Bottom).len() != side_name(Side::Left).len());
    }
    assert(side_name(Side::Bottom) != side_name(Side::Right)) by {
        assert(side_name(Side::Bottom).len() != side_name(Side::Right).len());
    }
    assert(side_name(Side::Left) != side_name(Side::Right)) by {
        assert(side_name(Side::Left)[0] != side_name(Side::Right)[0]);
    }
}

/// Giving parts to the sides: a side named by a part was not given before and gets the value;
/// every other side keeps what it had.
proof fn lemma_give_parts_sides(sides: Seq<Option<Dot>>, parts: Seq<Seq<char>>, value: Dot, side: Side)
    requires
        sides.len() == 4,
        give_parts(sides, parts, value) is Ok,
    ensures
        give_parts(sides, parts, value)->Ok_0.len() == 4,
        parts.contains(side_name(side)) ==> sides[side_index(side)] is None && give_parts(
            sides,
            parts,
            value,
        )->Ok_0[side_index(side)] == Some(value),
        !parts.contains(side_name(side)) ==> give_parts(sides, parts, value)->Ok_0[side_index(side)]
            == sides[side_index(side)],
    decreases parts.len(),
{
    if parts.len() > 0 {
        let init = parts.drop_last();
        lemma_give_parts_sides(sides, init, value, side);
        let last = parts.last();
        lemma_side_named(last, side);
        let named = side_named(last)->0;
        lemma_side_named(last, named);
        if parts.contains(side_name(side)) {
            if !init.contains(side_name(side)) {
                let k = choose|k: int| 0 <= k < parts.len() && parts[k] == side_name(side);
                if k < init.len() {
                    assert(init[k] == parts[k]);
                }
            }
        } else {
            assert(!init.contains(side_name(side))) by {
                if init.contains(side_name(side)) {
                    let k = choose|k: int| 0 <= k < init.len() && init[k] == side_name(side);
                    assert(parts[k] == init[k]);
                }
            }
            assert(parts[parts.len() - 1] == last);
        }
    }
}

/// A margin description that is read without error gives each side the value of the one entry
/// whose key names it: no two entries name the same side, and a side no entry names is left
/// out. So the order of the entries does not matter to a margin that is read.
pub proof fn law_margin_sides_from_entries(entries: Seq<(Seq<char>, Dot)>, side: Side)
    requires
        give_entries(entries) is Ok,
    ensures
        give_entries(entries)->Ok_0.len() == 4,
        give_entries(entries)->Ok_0[side_index(side)] matches Some(v) ==> exists|i: int|
            0 <= i < entries.len() && entry_names(#[trigger] entries[i], side) && entries[i].1 == v,
        give_entries(entries)->Ok_0[side_index(side)] is None ==> forall|i: int|
            0 <= i < entries.len() ==> !entry_names(#[trigger] entries[i], side),
        forall|i: int, j: int|
            0 <= i < j < entries.len() && entry_names(#[trigger] entries[i], side) ==> !entry_names(
                #[trigger] entries[j],
                side,
            ),
    decreases entries.len(),
{
    if entries.len() > 0 {
        let init = entries.drop_last();
        let last = entries.last();
        assert(give_entries(init) is Ok);
        law_margin_sides_from_entries(init, side);
        let before = give_entries(init)->Ok_0;
        lemma_give_parts_sides(before, split_dash(last.0), last.1, side);
        assert(entries[entries.len() - 1] == last);
        assert forall|i: int| 0 <= i < init.len() implies entries[i] == #[trigger] init[i] by {}
        let after = give_entries(entries)->Ok_0;
        if entry_names(last, side) {
            // the side was not given before, so no earlier entry names it
            assert forall|i: int, j: int|
                0 <= i < j < entries.len() && entry_names(#[trigger] entries[i], side) implies !entry_names(
                #[trigger] entries[j],
                side,
            ) by {
                if j == entries.len() - 1 {
                    assert(entries[i] == init[i]);
                } else {
                    assert(entries[i] == init[i] && entries[j] == init[j]);
                }
            }
        } else {
            if let Some(v) = after[side_index(side)] {
                let i = choose|i: int|
                    0 <= i < init.len() && entry_names(#[trigger] init[i], side) && init[i].1 == v;
                assert(entries[i] == init[i]);
            } else {
                assert forall|i: int| 0 <= i < entries.len() implies !entry_names(
                    #[trigger] entries[i],
                    side,
                ) by {
                    if i < init.len() {
                        assert(entries[i] == init[i]);
                    }
                }
            }
            assert forall|i: int, j: int|
                0 <= i < j < entries.len() && entry_names(#[trigger] entries[i], side) implies !entry_names(
                #[trigger] entries[j],
                side,
            ) by {
                if j < entries.len() - 1 {
                    assert(entries[i] == init[i] && entries[j] == init[j]);
                }
            }
        }
    }
}

} // verus!
