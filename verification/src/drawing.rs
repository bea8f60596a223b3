//! The plan of a key's drawing: which outlines are drawn for its shape, the rectangle of its
//! key top, the legend margins shown for debugging and where each legend is aligned.

use vstd::prelude::*;

use crate::geom::{rect_close, span, OffsetRect, Rect, Vector};
use crate::key::{count_present, Homing, Key, KeySize, Legend, Legends, Shape};
use crate::profile::{height_for_size, key_center, margin_for_size, profile_bound, LegendGeomMap, Profile};
use crate::units::{ConvertFrom, Dot, KeyUnit, Length, SUBDIVISIONS_PER_KEY_UNIT};

verus! {

/// An outline drawn for the shape of a key
#[derive(Debug, Clone, Copy, PartialEq, Eq, Structural)]
pub enum ShapePath {
    /// The bottom of a rectangular key of the given size
    Bottom(KeySize),
    /// The top of a rectangular key of the given size
    Top(KeySize),
    /// A homing bar
    HomingBar,
    /// A homing bump
    HomingBump,
    /// The step of a stepped caps lock key
    Step,
    /// The bottom of an ISO enter key
    IsoBottom,
    /// The top of an ISO enter key
    IsoTop,
}

/// Where a legend is drawn: its position among the nine, the column and row that align it
/// (0 left or top, 1 centre, 2 right or bottom), the height of its text and the rectangle
/// within its margins in which it is aligned.
#[derive(Debug, Clone, Copy, PartialEq, Eq, Structural)]
pub struct LegendPlacement {
    /// The position of the legend, left-to-right, top-to-bottom
    pub index: usize,
    /// The column of the legend
    pub column: usize,
    /// The row of the legend
    pub row: usize,
    /// The height of the legend text (the height of an uppercase letter)
    pub height: Dot,
    /// The key top rectangle less the legend's margins
    pub bounds: Rect,
}

/// A key size in key units, given in subdivisions.
pub open spec fn key_size(width: int, height: int) -> KeySize {
    KeySize {
        width: KeyUnit { subdivisions: width as i64 },
        height: KeyUnit { subdivisions: height as i64 },
    }
}

/// The outlines drawn for a key's shape, in drawing order: none when keys are hidden or the key
/// is a decal; bottom and top for a rectangular key (1u for a homing key, with the homing bar
/// or bump of its type or else of the profile's default type; a scoop adds nothing); bottom,
/// top and step for a stepped caps lock key; the ISO bottom and top for an ISO enter key.
pub open spec fn shape_paths(shape: Shape, default_homing: Homing, show_keys: bool) -> Seq<
    ShapePath,
> {
    let u = SUBDIVISIONS_PER_KEY_UNIT as int;
    if !show_keys {
        seq![]
    } else {
        match shape {
            Shape::Decal(_) => seq![],
            Shape::Normal(size) => seq![ShapePath::Bottom(size), ShapePath::Top(size)],
            Shape::Space(size) => seq![ShapePath::Bottom(size), ShapePath::Top(size)],
            Shape::Homing(homing) => {
                let unit = key_size(u, u);
                let base = seq![ShapePath::Bottom(unit), ShapePath::Top(unit)];
                match (match homing {
                    Some(h) => h,
                    None => default_homing,
                }) {
                    Homing::Scoop => base,
                    Homing::Bar => base.push(ShapePath::HomingBar),
                    Homing::Bump => base.push(ShapePath::HomingBump),
                }
            },
            Shape::SteppedCaps => seq![
                ShapePath::Bottom(key_size(7 * u / 4, u)),
                ShapePath::Top(key_size(5 * u / 4, u)),
                ShapePath::Step,
            ],
            Shape::IsoVertical => seq![ShapePath::IsoBottom, ShapePath::IsoTop],
            Shape::IsoHorizontal => seq![ShapePath::IsoBottom, ShapePath::IsoTop],
        }
    }
}

/// The part of a key's shape that holds its legends, in subdivisions, as
/// `(min_x, min_y, max_x, max_y)`: the whole key for a rectangular key; the upper 1.25u of a
/// stepped caps lock; the lower-right part of a vertical ISO enter; the upper row of a
/// horizontal ISO enter.
pub open spec fn legend_area(shape: Shape) -> (int, int, int, int) {
    let u = SUBDIVISIONS_PER_KEY_UNIT as int;
    match shape {
        Shape::Decal(size) => (0, 0, size.width.subdivisions as int, size.height.subdivisions as int),
        Shape::Normal(size) => (0, 0, size.width.subdivisions as int, size.height.subdivisions as int),
        Shape::Space(size) => (0, 0, size.width.subdivisions as int, size.height.subdivisions as int),
        Shape::Homing(_) => (0, 0, u, u),
        Shape::SteppedCaps => (0, 0, 5 * u / 4, u),
        Shape::IsoVertical => (u / 4, 0, 3 * u / 2, 2 * u),
        Shape::IsoHorizontal => (0, 0, 3 * u / 2, u),
    }
}

/// Whether the sizes in a shape are within the profile bound.
pub open spec fn shape_bounded(shape: Shape) -> bool {
    match shape {
        Shape::Decal(size) => size_bounded(size),
        Shape::Normal(size) => size_bounded(size),
        Shape::Space(size) => size_bounded(size),
        _ => true,
    }
}

/// Whether a key size is within the profile bound.
pub open spec fn size_bounded(size: KeySize) -> bool {
    -profile_bound() <= size.width.subdivisions <= profile_bound() && -profile_bound()
        <= size.height.subdivisions <= profile_bound()
}

/// The key top rectangle of a key: the profile's 1u key top, its top-left corner moved with
/// that of the legend area and its bottom-right corner with that of the legend area.
pub open spec fn key_top_rect(profile: Profile, shape: Shape) -> (int, int, int, int) {
    let u = SUBDIVISIONS_PER_KEY_UNIT as int;
    let (ax0, ay0, ax1, ay1) = legend_area(shape);
    let t = profile.top;
    let min_x = key_center() - span(t.size.x) / 2;
    let min_y = key_center() + span(t.y_offset) - span(t.size.y) / 2;
    (min_x + ax0, min_y + ay0, min_x + span(t.size.x) + ax1 - u, min_y + span(t.size.y) + ay1 - u)
}

/// The rectangle with the given corners, in subdivisions.
pub open spec fn rect_of(c: (int, int, int, int)) -> Rect {
    Rect {
        min: crate::geom::Point {
            x: Dot { subdivisions: c.0 as i64 },
            y: Dot { subdivisions: c.1 as i64 },
        },
        max: crate::geom::Point {
            x: Dot { subdivisions: c.2 as i64 },
            y: Dot { subdivisions: c.3 as i64 },
        },
    }
}

/// A rectangle with each side moved inwards by the given offsets.
pub open spec fn inset_rect(r: Rect, m: OffsetRect) -> Rect {
    rect_of(
        (
            span(r.min.x) + span(m.left),
            span(r.min.y) + span(m.top),
            span(r.max.x) - span(m.right),
            span(r.max.y) - span(m.bottom),
        ),
    )
}

/// Whether a sequence of rectangles holds one close to `r` (see `rect_close`).
pub open spec fn has_close_rect(rects: Seq<Rect>, r: Rect) -> bool {
    exists|k: int| 0 <= k < rects.len() && rect_close(#[trigger] rects[k], r)
}

/// The legend margin rectangles of the legends present, in legend order; a rectangle close to
/// one already drawn is drawn only once.
pub open spec fn margin_rects<C>(top: Rect, map: LegendGeomMap, slots: Seq<Option<Legend<C>>>) -> Seq<
    Rect,
>
    decreases slots.len(),
{
    if slots.len() == 0 {
        seq![]
    } else {
        let before = margin_rects(top, map, slots.drop_last());
        match slots.last() {
            None => before,
            Some(legend) => {
                let r = inset_rect(top, margin_for_size(map, legend.size_idx as int));
                if has_close_rect(before, r) {
                    before
                } else {
                    before.push(r)
                }
            },
        }
    }
}

/// Where each legend present is drawn, in legend order: with the height and within the
/// margins of its size, in the key top rectangle `top`.
pub open spec fn legend_placements<C>(
    top: Rect,
    map: LegendGeomMap,
    slots: Seq<Option<Legend<C>>>,
) -> Seq<LegendPlacement>
    decreases slots.len(),
{
    if slots.len() == 0 {
        seq![]
    } else {
        let before = legend_placements(top, map, slots.drop_last());
        let i = slots.len() - 1;
        match slots.last() {
            None => before,
            Some(legend) => before.push(
                LegendPlacement {
                    index: i as usize,
                    column: (i % 3) as usize,
                    row: (i / 3) as usize,
                    height: Dot {
                        subdivisions: height_for_size(map, legend.size_idx as int) as i64,
                    },
                    bounds: inset_rect(top, margin_for_size(map, legend.size_idx as int)),
                },
            ),
        }
    }
}

/// The number of paths in a key's drawing: those of its shape, one for the legend margins when
/// they are shown, and one for each legend.
pub open spec fn required_count<P, C>(
    key: Key<P, C>,
    profile: Profile,
    show_keys: bool,
    show_margin: bool,
) -> int {
    shape_paths(key.shape, profile.homing.default, show_keys).len() + (if show_margin {
        1int
    } else {
        0int
    }) + count_present(key.legends.spec_slots())
}

/// The plan of a key's drawing
#[derive(Debug, Clone)]
pub struct KeyDrawingPlan {
    /// The key top rectangle, in which the legends are placed
    pub top_rect: Rect,
    /// The outlines of the key's shape, in drawing order
    pub shape_paths: Vec<ShapePath>,
    /// The legend margin rectangles, when they are shown
    pub margin: Option<Vec<Rect>>,
    /// Where the legends are drawn, in legend order
    pub legends: Vec<LegendPlacement>,
}

impl KeyDrawingPlan {
    /// The number of paths drawn: the shape's, the margins' and the legends'
    pub open spec fn path_count(&self) -> int {
        self.shape_paths@.len() + (if self.margin is Some {
            1int
        } else {
            0int
        }) + self.legends@.len()
    }

    /// The number of paths drawn: the shape's, the margins' and the legends'
    pub fn len(&self) -> (n: usize)
        requires
            self.path_count() <= usize::MAX,
        ensures
            n == self.path_count(),
    {
        let margin: usize = if self.margin.is_some() {
            1
        } else {
            0
        };
        self.shape_paths.len() + margin + self.legends.len()
    }
}

fn size_path_pair(size: KeySize) -> (v: Vec<ShapePath>)
    ensures
        v@ == seq![ShapePath::Bottom(size), ShapePath::Top(size)],
{
    let mut v: Vec<ShapePath> = Vec::new();
    v.push(ShapePath::Bottom(size));
    v.push(ShapePath::Top(size));
    v
}

/// The outlines drawn for a key's shape (see `shape_paths`).
pub fn plan_shape_paths(shape: Shape, default_homing: Homing, show_keys: bool) -> (v: Vec<
    ShapePath,
>)
    ensures
        v@ == shape_paths(shape, default_homing, show_keys),
{
    let u = SUBDIVISIONS_PER_KEY_UNIT;
    if !show_keys {
        return Vec::new();
    }
    match shape {
        Shape::Decal(_) => Vec::new(),
        Shape::Normal(size) => size_path_pair(size),
        Shape::Space(size) => size_path_pair(size),
        Shape::Homing(homing) => {
            let mut v = size_path_pair(KeySize::unit());
            let h = match homing {
                Some(h) => h,
                None => default_homing,
            };
            match h {
                Homing::Scoop => {},
                Homing::Bar => v.push(ShapePath::HomingBar),
                Homing::Bump => v.push(ShapePath::HomingBump),
            }
            v
        },
        Shape::SteppedCaps => {
            let mut v: Vec<ShapePath> = Vec::new();
            v.push(
                ShapePath::Bottom(
                    KeySize::new(KeyUnit::from_subdivisions(7 * u / 4), KeyUnit::new(1)),
                ),
            );
            v.push(
                ShapePath::Top(KeySize::new(KeyUnit::from_subdivisions(5 * u / 4), KeyUnit::new(1))),
            );
            v.push(ShapePath::Step);
            v
        },
        Shape::IsoVertical | Shape::IsoHorizontal => {
            let mut v: Vec<ShapePath> = Vec::new();
            v.push(ShapePath::IsoBottom);
            v.push(ShapePath::IsoTop);
            v
        },
    }
}

/// The key top rectangle of a key (see `key_top_rect`).
pub fn plan_top_rect(profile: &Profile, shape: Shape) -> (r: Rect)
    requires
        profile.top.bounded(),
        shape_bounded(shape),
    ensures
        r == rect_of(key_top_rect(*profile, shape)),
{
    let u = SUBDIVISIONS_PER_KEY_UNIT;
    let (ax0, ay0, ax1, ay1): (i64, i64, i64, i64) = match shape {
        Shape::Decal(size) => (0, 0, size.width.subdivisions, size.height.subdivisions),
        Shape::Normal(size) => (0, 0, size.width.subdivisions, size.height.subdivisions),
        Shape::Space(size) => (0, 0, size.width.subdivisions, size.height.subdivisions),
        Shape::Homing(_) => (0, 0, u, u),
        Shape::SteppedCaps => (0, 0, 5 * u / 4, u),
        Shape::IsoVertical => (u / 4, 0, 3 * u / 2, 2 * u),
        Shape::IsoHorizontal => (0, 0, 3 * u / 2, u),
    };
    let top = profile.top.to_rect();
    let dmin = Vector::from_key_units(KeyUnit::from_subdivisions(ax0), KeyUnit::from_subdivisions(ay0));
    let dmax = Vector::from_key_units(
        KeyUnit::from_subdivisions(ax1 - u),
        KeyUnit::from_subdivisions(ay1 - u),
    );
    top.grow(dmin, dmax)
}

/// The legend margin rectangles of a key's legends (see `margin_rects`).
pub fn plan_margin_rects<C>(top: Rect, map: &LegendGeomMap, legends: &Legends<C>) -> (v: Vec<Rect>)
    requires
        top.within(0x0800_0000_0000_0000),
        map.alpha.margin.within(profile_bound()),
        map.symbol.margin.within(profile_bound()),
        map.modifier.margin.within(profile_bound()),
    ensures
        v@ == margin_rects(top, *map, legends.spec_slots()),
{
    let ghost slots = legends.spec_slots();
    proof {
        legends.lemma_nine_slots();
    }
    let mut v: Vec<Rect> = Vec::new();
    let mut i: usize = 0;
    while i < 9
        invariant
            i <= 9,
            slots == legends.spec_slots(),
            slots.len() == 9,
            top.within(0x0800_0000_0000_0000),
            map.alpha.margin.within(profile_bound()),
            map.symbol.margin.within(profile_bound()),
            map.modifier.margin.within(profile_bound()),
            v@ == margin_rects(top, *map, slots.take(i as int)),
        decreases 9 - i,
    {
        assert(slots.take(i + 1).drop_last() =~= slots.take(i as int));
        match legends.get(i) {
            None => {},
            Some(legend) => {
                let margin = map.margin_for_kle_size(legend.size_idx);
                let r = top.inset(margin);
                assert(r == inset_rect(top, margin));
                let mut found = false;
                let mut j: usize = 0;
                while j < v.len()
                    invariant
                        j <= v@.len(),
                        found == (exists|k: int| 0 <= k < j && rect_close(#[trigger] v@[k], r)),
                    decreases v@.len() - j,
                {
                    if v[j].is_close(&r) {
                        found = true;
                    }
                    j = j + 1;
                }
                if !found {
                    v.push(r);
                }
            },
        }
        i = i + 1;
    }
    assert(slots.take(9) =~= slots);
    v
}

/// Where each legend of a key is drawn (see `legend_placements`).
pub fn plan_legends<C>(top: Rect, map: &LegendGeomMap, legends: &Legends<C>) -> (v: Vec<
    LegendPlacement,
>)
    requires
        top.within(0x0800_0000_0000_0000),
        map.alpha.margin.within(profile_bound()),
        map.symbol.margin.within(profile_bound()),
        map.modifier.margin.within(profile_bound()),
    ensures
        v@ == legend_placements(top, *map, legends.spec_slots()),
{
    let ghost slots = legends.spec_slots();
    proof {
        legends.lemma_nine_slots();
    }
    let mut v: Vec<LegendPlacement> = Vec::new();
    let mut i: usize = 0;
    while i < 9
        invariant
            i <= 9,
            slots == legends.spec_slots(),
            slots.len() == 9,
            top.within(0x0800_0000_0000_0000),
            map.alpha.margin.within(profile_bound()),
            map.symbol.margin.within(profile_bound()),
            map.modifier.margin.within(profile_bound()),
            v@ == legend_placements(top, *map, slots.take(i as int)),
        decreases 9 - i,
    {
        assert(slots.take(i + 1).drop_last() =~= slots.take(i as int));
        match legends.get(i) {
            None => {},
            Some(legend) => {
                let geom = map.for_kle_size(legend.size_idx);
                let bounds = top.inset(geom.margin);
                v.push(
                    LegendPlacement { index: i, column: i % 3, row: i / 3, height: geom.height, bounds },
                );
            },
        }
        i = i + 1;
    }
    assert(slots.take(9) =~= slots);
    v
}

/// The plan of a key's drawing with the given profile: its shape's outlines (when keys are
/// shown), the key top rectangle, the legend margins (when they are shown) and the legend
/// placements.
pub fn plan_key_drawing<P, C>(
    key: &Key<P, C>,
    profile: &Profile,
    show_keys: bool,
    show_margin: bool,
) -> (plan: KeyDrawingPlan)
    requires
        profile.top.bounded(),
        profile.legend_geom.alpha.margin.within(profile_bound()),
        profile.legend_geom.symbol.margin.within(profile_bound()),
        profile.legend_geom.modifier.margin.within(profile_bound()),
        shape_bounded(key.shape),
    ensures
        plan.shape_paths@ == shape_paths(key.shape, profile.homing.default, show_keys),
        plan.top_rect == rect_of(key_top_rect(*profile, key.shape)),
        show_margin ==> (plan.margin matches Some(m) && m@ == margin_rects(
            plan.top_rect,
            profile.legend_geom,
            key.legends.spec_slots(),
        )),
        !show_margin ==> plan.margin is None,
        plan.legends@ == legend_placements(
            plan.top_rect,
            profile.legend_geom,
            key.legends.spec_slots(),
        ),
        plan.path_count() == required_count(*key, *profile, show_keys, show_margin),
{
    let shape_paths = plan_shape_paths(key.shape, profile.homing.default, show_keys);
    let top_rect = plan_top_rect(profile, key.shape);
    let margin = if show_margin {
        Some(plan_margin_rects(top_rect, &profile.legend_geom, &key.legends))
    } else {
        None
    };
    let legends = plan_legends(top_rect, &profile.legend_geom, &key.legends);
    let plan = KeyDrawingPlan { top_rect, shape_paths, margin, legends };
    proof {
        law_plan_matches_capacity(*key, *profile, show_keys, show_margin, plan);
    }
    plan
}

/// The number of paths in a key's drawing (see `required_count`).
pub fn required_capacity<P, C>(
    key: &Key<P, C>,
    profile: &Profile,
    show_keys: bool,
    show_margin: bool,
) -> (n: usize)
    ensures
        n == required_count(*key, *profile, show_keys, show_margin),
{
    let key_paths: usize = if !show_keys {
        0
    } else {
        match key.shape {
            Shape::Decal(_) => 0,
            Shape::Normal(_) | Shape::Space(_) | Shape::IsoVertical | Shape::IsoHorizontal => 2,
            Shape::Homing(homing) => {
                let h = match homing {
                    Some(h) => h,
                    None => profile.homing.default,
                };
                match h {
                    Homing::Scoop => 2,
                    Homing::Bar | Homing::Bump => 3,
                }
            },
            Shape::SteppedCaps => 3,
        }
    };
    let margin: usize = if show_margin {
        1
    } else {
        0
    };
    let legends = key.legends.count();
    proof {
        key.legends.lemma_nine_slots();
        lemma_count_present_bound(key.legends.spec_slots());
    }
    key_paths + margin + legends
}

proof fn lemma_count_present_bound<C>(slots: Seq<Option<Legend<C>>>)
    ensures
        count_present(slots) <= slots.len(),
    decreases slots.len(),
{
    if slots.len() > 0 {
        lemma_count_present_bound(slots.drop_last());
    }
}

proof fn lemma_placements_count<C>(top: Rect, map: LegendGeomMap, slots: Seq<Option<Legend<C>>>)
    ensures
        legend_placements(top, map, slots).len() == count_present(slots),
    decreases slots.len(),
{
    if slots.len() > 0 {
        lemma_placements_count(top, map, slots.drop_last());
    }
}

/// A key's drawing has exactly the number of paths that `required_capacity` counts: the
/// plan's shape outlines, its margin path and its legends add up to it.
pub proof fn law_plan_matches_capacity<P, C>(
    key: Key<P, C>,
    profile: Profile,
    show_keys: bool,
    show_margin: bool,
    plan: KeyDrawingPlan,
)
    requires
        plan.shape_paths@ == shape_paths(key.shape, profile.homing.default, show_keys),
        show_margin ==> plan.margin is Some,
        !show_margin ==> plan.margin is None,
        plan.legends@ == legend_placements(
            plan.top_rect,
            profile.legend_geom,
            key.legends.spec_slots(),
        ),
    ensures
        plan.path_count() == required_count(key, profile, show_keys, show_margin),
{
    lemma_placements_count(plan.top_rect, profile.legend_geom, key.legends.spec_slots());
}

/// Every legend placement of a key's nine legend positions is at the column and row of its
/// position, and positions come in increasing order, each holding a legend whose size gives
/// the placement's height and margins.
pub proof fn law_placements_follow_positions<C>(
    top: Rect,
    map: LegendGeomMap,
    slots: Seq<Option<Legend<C>>>,
    k: int,
)
    requires
        slots.len() <= 9,
        0 <= k < legend_placements(top, map, slots).len(),
    ensures
        legend_placements(top, map, slots)[k].column == legend_placements(top, map, slots)[k].index
            % 3,
        legend_placements(top, map, slots)[k].row == legend_placements(top, map, slots)[k].index
            / 3,
        legend_placements(top, map, slots)[k].index < slots.len(),
        slots[legend_placements(top, map, slots)[k].index as int] matches Some(legend)
            && legend_placements(top, map, slots)[k].bounds == inset_rect(
            top,
            margin_for_size(map, legend.size_idx as int),
        ),
        k > 0 ==> legend_placements(top, map, slots)[k - 1].index < legend_placements(
            top,
            map,
            slots,
        )[k].index,
    decreases slots.len(),
{
    if slots.len() > 0 {
        let before = legend_placements(top, map, slots.drop_last());
        if k < before.len() {
            law_placements_follow_positions(top, map, slots.drop_last(), k);
        } else {
            if k > 0 {
                law_placements_follow_positions(top, map, slots.drop_last(), k - 1);
            }
        }
    }
}

/// Each legend is drawn as tall as the profile says for its size: sizes 3, 4 and 5 take the
/// profile's modifier, symbol and alpha heights, other sizes the layout-editor approximation.
pub proof fn law_placement_heights_from_profile<C>(
    top: Rect,
    map: LegendGeomMap,
    slots: Seq<Option<Legend<C>>>,
    k: int,
)
    requires
        slots.len() <= 9,
        0 <= k < legend_placements(top, map, slots).len(),
    ensures
        ({
            let p = legend_placements(top, map, slots)[k];
            slots[p.index as int] matches Some(legend) && {
                &&& legend.size_idx == 3 ==> p.height == map.modifier.height
                &&& legend.size_idx == 4 ==> p.height == map.symbol.height
                &&& legend.size_idx == 5 ==> p.height == map.alpha.height
                &&& (legend.size_idx < 3 || legend.size_idx > 5) ==> span(p.height)
                    == crate::profile::kle_approx_height(legend.size_idx as int)
            }
        }),
    decreases slots.len(),
{
    if slots.len() > 0 {
        let before = legend_placements(top, map, slots.drop_last());
        if k < before.len() {
            law_placement_heights_from_profile(top, map, slots.drop_last(), k);
            law_placements_follow_positions(top, map, slots.drop_last(), k);
        }
    }
}

/// Whether `r` is the margin rectangle of the legend in `slot`.
pub open spec fn is_margin_of<C>(top: Rect, map: LegendGeomMap, slot: Option<Legend<C>>, r: Rect) -> bool {
    match slot {
        Some(legend) => r == inset_rect(top, margin_for_size(map, legend.size_idx as int)),
        None => false,
    }
}

/// Whether `r` is the margin rectangle of one of the legends in `slots`.
pub open spec fn comes_from_legend<C>(
    top: Rect,
    map: LegendGeomMap,
    slots: Seq<Option<Legend<C>>>,
    r: Rect,
) -> bool {
    exists|p: int| 0 <= p < slots.len() && is_margin_of(top, map, #[trigger] slots[p], r)
}

/// No two margin rectangles of a key are close (so none is drawn twice), there are no more of
/// them than legends, and each is the margin of a legend present.
pub proof fn law_margin_rects_distinct<C>(top: Rect, map: LegendGeomMap, slots: Seq<Option<Legend<C>>>)
    ensures
        forall|i: int, j: int|
            0 <= i < j < margin_rects(top, map, slots).len() ==> !rect_close(
                margin_rects(top, map, slots)[i],
                margin_rects(top, map, slots)[j],
            ),
        margin_rects(top, map, slots).len() <= count_present(slots),
        forall|i: int|
            0 <= i < margin_rects(top, map, slots).len() ==> comes_from_legend(
                top,
                map,
                slots,
                #[trigger] margin_rects(top, map, slots)[i],
            ),
    decreases slots.len(),
{
    if slots.len() > 0 {
        let init = slots.drop_last();
        law_margin_rects_distinct(top, map, init);
        let before = margin_rects(top, map, init);
        let rects = margin_rects(top, map, slots);
        assert forall|i: int| 0 <= i < rects.len() implies comes_from_legend(
            top,
            map,
            slots,
            #[trigger] rects[i],
        ) by {
            if i < before.len() {
                assert(comes_from_legend(top, map, init, before[i]));
                let p = choose|p: int|
                    0 <= p < init.len() && is_margin_of(top, map, #[trigger] init[p], before[i]);
                assert(init[p] == slots[p]);
                assert(is_margin_of(top, map, slots[p], rects[i]));
            } else {
                assert(slots[slots.len() - 1] == slots.last());
                assert(is_margin_of(top, map, slots[slots.len() - 1], rects[i]));
            }
        }
    }
}

/// The bounds of a key's shape, in subdivisions, as `(min_x, min_y, max_x, max_y)`: its size
/// for a rectangular key, 1u for a homing key, 1.75u by 1u for a stepped caps lock and 1.5u by
/// 2u for an ISO enter key.
pub open spec fn shape_bounds(shape: Shape) -> (int, int, int, int) {
    let u = SUBDIVISIONS_PER_KEY_UNIT as int;
    match shape {
        Shape::Decal(size) => (0, 0, size.width.subdivisions as int, size.height.subdivisions as int),
        Shape::Normal(size) => (0, 0, size.width.subdivisions as int, size.height.subdivisions as int),
        Shape::Space(size) => (0, 0, size.width.subdivisions as int, size.height.subdivisions as int),
        Shape::Homing(_) => (0, 0, u, u),
        Shape::SteppedCaps => (0, 0, 7 * u / 4, u),
        Shape::IsoVertical => (0, 0, 3 * u / 2, 2 * u),
        Shape::IsoHorizontal => (0, 0, 3 * u / 2, 2 * u),
    }
}

/// The bounds of a key's shape (see `shape_bounds`), in dots.
pub fn outer_rect(shape: Shape) -> (r: Rect)
    ensures
        r == rect_of(shape_bounds(shape)),
{
    let u = SUBDIVISIONS_PER_KEY_UNIT;
    let (w, h): (i64, i64) = match shape {
        Shape::Decal(size) => (size.width.subdivisions, size.height.subdivisions),
        Shape::Normal(size) => (size.width.subdivisions, size.height.subdivisions),
        Shape::Space(size) => (size.width.subdivisions, size.height.subdivisions),
        Shape::Homing(_) => (u, u),
        Shape::SteppedCaps => (7 * u / 4, u),
        Shape::IsoVertical | Shape::IsoHorizontal => (3 * u / 2, 2 * u),
    };
    Rect::new(
        crate::geom::Point::new(Dot::from_subdivisions(0), Dot::from_subdivisions(0)),
        crate::geom::Point::new(Dot::from_subdivisions(w), Dot::from_subdivisions(h)),
    )
}

/// The part of a key's shape that holds its legends (see `legend_area`), in dots.
pub fn inner_rect(shape: Shape) -> (r: Rect)
    ensures
        r == rect_of(legend_area(shape)),
{
    let u = SUBDIVISIONS_PER_KEY_UNIT;
    let (x0, y0, x1, y1): (i64, i64, i64, i64) = match shape {
        Shape::Decal(size) => (0, 0, size.width.subdivisions, size.height.subdivisions),
        Shape::Normal(size) => (0, 0, size.width.subdivisions, size.height.subdivisions),
        Shape::Space(size) => (0, 0, size.width.subdivisions, size.height.subdivisions),
        Shape::Homing(_) => (0, 0, u, u),
        Shape::SteppedCaps => (0, 0, 5 * u / 4, u),
        Shape::IsoVertical => (u / 4, 0, 3 * u / 2, 2 * u),
        Shape::IsoHorizontal => (0, 0, 3 * u / 2, u),
    };
    Rect::new(
        crate::geom::Point::new(Dot::from_subdivisions(x0), Dot::from_subdivisions(y0)),
        crate::geom::Point::new(Dot::from_subdivisions(x1), Dot::from_subdivisions(y1)),
    )
}

/// The legend area of a key lies within its bounds.
pub proof fn law_legend_area_within_bounds(shape: Shape)
    requires
        match shape {
            Shape::Decal(size) => size.width.subdivisions >= 0 && size.height.subdivisions >= 0,
            Shape::Normal(size) => size.width.subdivisions >= 0 && size.height.subdivisions >= 0,
            Shape::Space(size) => size.width.subdivisions >= 0 && size.height.subdivisions >= 0,
            _ => true,
        },
    ensures
        shape_bounds(shape).0 <= legend_area(shape).0 <= legend_area(shape).2 <= shape_bounds(shape).2,
        shape_bounds(shape).1 <= legend_area(shape).1 <= legend_area(shape).3 <= shape_bounds(shape).3,
{
}

/// A key's outlines follow its geometry: a bottom outline is as large as the key's bounds, a
/// top outline as large as its legend area, so a top lies within the bottom drawn with it (for
/// a stepped caps lock, the 1.75u bottom under the 1.25u top).
pub proof fn law_outlines_follow_shape(shape: Shape, default_homing: Homing, show_keys: bool, i: int, j: int)
    requires
        0 <= i < shape_paths(shape, default_homing, show_keys).len(),
        0 <= j < shape_paths(shape, default_homing, show_keys).len(),
        match shape {
            Shape::Decal(size) => size.width.subdivisions >= 0 && size.height.subdivisions >= 0,
            Shape::Normal(size) => size.width.subdivisions >= 0 && size.height.subdivisions >= 0,
            Shape::Space(size) => size.width.subdivisions >= 0 && size.height.subdivisions >= 0,
            _ => true,
        },
    ensures
        shape_paths(shape, default_homing, show_keys)[i] matches ShapePath::Bottom(b) ==> b
            .width.subdivisions == shape_bounds(shape).2 - shape_bounds(shape).0
            && b.height.subdivisions == shape_bounds(shape).3 - shape_bounds(shape).1,
        shape_paths(shape, default_homing, show_keys)[i] matches ShapePath::Top(t) ==> t
            .width.subdivisions == legend_area(shape).2 - legend_area(shape).0
            && t.height.subdivisions == legend_area(shape).3 - legend_area(shape).1,
        ({
            let paths = shape_paths(shape, default_homing, show_keys);
            paths[i] is Bottom && paths[j] is Top ==> {
                &&& paths[j]->Top_0.width.subdivisions <= paths[i]->Bottom_0.width.subdivisions
                &&& paths[j]->Top_0.height.subdivisions <= paths[i]->Bottom_0.height.subdivisions
            }
        }),
{
    law_legend_area_within_bounds(shape);
    lemma_outline_size(shape, default_homing, show_keys, i);
    lemma_outline_size(shape, default_homing, show_keys, j);
}

/// A bottom outline is as large as the key's bounds and a top outline as its legend area.
proof fn lemma_outline_size(shape: Shape, default_homing: Homing, show_keys: bool, k: int)
    requires
        0 <= k < shape_paths(shape, default_homing, show_keys).len(),
    ensures
        shape_paths(shape, default_homing, show_keys)[k] matches ShapePath::Bottom(b) ==> b
            .width.subdivisions == shape_bounds(shape).2 - shape_bounds(shape).0
            && b.height.subdivisions == shape_bounds(shape).3 - shape_bounds(shape).1,
        shape_paths(shape, default_homing, show_keys)[k] matches ShapePath::Top(t) ==> t
            .width.subdivisions == legend_area(shape).2 - legend_area(shape).0
            && t.height.subdivisions == legend_area(shape).3 - legend_area(shape).1,
{
}

/// The extent of a key in a layout, in subdivisions: the bounds of its shape moved to its
/// position.
pub open spec fn key_extent<C>(key: Key<(KeyUnit, KeyUnit), C>) -> (int, int, int, int) {
    let (x0, y0, x1, y1) = shape_bounds(key.shape);
    let (px, py) = (key.position.0.subdivisions as int, key.position.1.subdivisions as int);
    (px + x0, py + y0, px + x1, py + y1)
}

/// The smallest rectangle holding two rectangles.
pub open spec fn union_extent(a: (int, int, int, int), b: (int, int, int, int)) -> (int, int, int, int) {
    (
        if a.0 <= b.0 { a.0 } else { b.0 },
        if a.1 <= b.1 { a.1 } else { b.1 },
        if a.2 >= b.2 { a.2 } else { b.2 },
        if a.3 >= b.3 { a.3 } else { b.3 },
    )
}

/// The bounds of a layout: the smallest rectangle that holds a 1u key at the origin and every
/// key of the layout.
pub open spec fn layout_bounds<C>(keys: Seq<Key<(KeyUnit, KeyUnit), C>>) -> (int, int, int, int)
    decreases keys.len(),
{
    if keys.len() == 0 {
        (0, 0, SUBDIVISIONS_PER_KEY_UNIT as int, SUBDIVISIONS_PER_KEY_UNIT as int)
    } else {
        union_extent(layout_bounds(keys.drop_last()), key_extent(keys.last()))
    }
}

/// Whether a key's position and size are within the profile bound.
pub open spec fn key_bounded<C>(key: Key<(KeyUnit, KeyUnit), C>) -> bool {
    &&& shape_bounded(key.shape)
    &&& -profile_bound() <= key.position.0.subdivisions <= profile_bound()
    &&& -profile_bound() <= key.position.1.subdivisions <= profile_bound()
}

proof fn lemma_layout_bounds_range<C>(keys: Seq<Key<(KeyUnit, KeyUnit), C>>)
    requires
        forall|i: int| 0 <= i < keys.len() ==> key_bounded(#[trigger] keys[i]),
    ensures
        -4 * profile_bound() <= layout_bounds(keys).0 <= 4 * profile_bound(),
        -4 * profile_bound() <= layout_bounds(keys).1 <= 4 * profile_bound(),
        -4 * profile_bound() <= layout_bounds(keys).2 <= 4 * profile_bound(),
        -4 * profile_bound() <= layout_bounds(keys).3 <= 4 * profile_bound(),
    decreases keys.len(),
{
    if keys.len() > 0 {
        let init = keys.drop_last();
        assert forall|i: int| 0 <= i < init.len() implies key_bounded(#[trigger] init[i]) by {
            assert(init[i] == keys[i]);
        }
        lemma_layout_bounds_range(init);
        assert(key_bounded(keys[keys.len() - 1]));
    }
}

/// The bounds of a layout (see `layout_bounds`), in dots.
pub fn drawing_bounds<C>(keys: &Vec<Key<(KeyUnit, KeyUnit), C>>) -> (r: Rect)
    requires
        forall|i: int| 0 <= i < keys@.len() ==> key_bounded(#[trigger] keys@[i]),
    ensures
        r == rect_of(layout_bounds(keys@)),
{
    let u = SUBDIVISIONS_PER_KEY_UNIT;
    let mut x0: i64 = 0;
    let mut y0: i64 = 0;
    let mut x1: i64 = u;
    let mut y1: i64 = u;
    let mut i: usize = 0;
    while i < keys.len()
        invariant
            i <= keys@.len(),
            forall|k: int| 0 <= k < keys@.len() ==> key_bounded(#[trigger] keys@[k]),
            (x0 as int, y0 as int, x1 as int, y1 as int) == layout_bounds(keys@.take(i as int)),
        decreases keys@.len() - i,
    {
        assert(keys@.take(i + 1).drop_last() =~= keys@.take(i as int));
        assert(keys@.take(i + 1).last() == keys@[i as int]);
        proof {
            lemma_layout_bounds_range(keys@.take(i as int));
            assert forall|k: int| 0 <= k < i implies key_bounded(#[trigger] keys@.take(i as int)[k]) by {
                assert(keys@.take(i as int)[k] == keys@[k]);
            }
        }
        let key = &keys[i];
        let r = outer_rect(key.shape);
        let kx0 = key.position.0.subdivisions + r.min.x.subdivisions;
        let ky0 = key.position.1.subdivisions + r.min.y.subdivisions;
        let kx1 = key.position.0.subdivisions + r.max.x.subdivisions;
        let ky1 = key.position.1.subdivisions + r.max.y.subdivisions;
        if kx0 < x0 {
            x0 = kx0;
        }
        if ky0 < y0 {
            y0 = ky0;
        }
        if kx1 > x1 {
            x1 = kx1;
        }
        if ky1 > y1 {
            y1 = ky1;
        }
        i = i + 1;
    }
    assert(keys@.take(keys@.len() as int) =~= keys@);
    Rect::new(
        crate::geom::Point::new(Dot::from_subdivisions(x0), Dot::from_subdivisions(y0)),
        crate::geom::Point::new(Dot::from_subdivisions(x1), Dot::from_subdivisions(y1)),
    )
}

/// The bounds of a layout hold a 1u key at the origin and every key of the layout.
pub proof fn law_layout_bounds_hold_keys<C>(keys: Seq<Key<(KeyUnit, KeyUnit), C>>, i: int)
    requires
        0 <= i < keys.len(),
    ensures
        layout_bounds(keys).0 <= key_extent(keys[i]).0,
        layout_bounds(keys).1 <= key_extent(keys[i]).1,
        layout_bounds(keys).2 >= key_extent(keys[i]).2,
        layout_bounds(keys).3 >= key_extent(keys[i]).3,
        layout_bounds(keys).0 <= 0 && layout_bounds(keys).1 <= 0,
        layout_bounds(keys).2 >= SUBDIVISIONS_PER_KEY_UNIT && layout_bounds(keys).3
            >= SUBDIVISIONS_PER_KEY_UNIT,
    decreases keys.len(),
{
    if i < keys.len() - 1 {
        let init = keys.drop_last();
        law_layout_bounds_hold_keys(init, i);
        assert(init[i] == keys[i]);
    } else if keys.len() > 1 {
        law_layout_bounds_hold_keys(keys.drop_last(), 0);
    }
}

/// The paint operation of a PDF path: fill (even-odd) and stroke, fill, stroke, or nothing.
#[derive(Debug, Clone, Copy, PartialEq, Eq, Structural)]
pub enum PaintOp {
    /// Fill with the even-odd rule, then stroke
    FillAndStroke,
    /// Fill with the even-odd rule
    Fill,
    /// Stroke the outline
    Stroke,
    /// Paint nothing
    Nothing,
}

/// The paint operation for a path with or without a fill and an outline.
pub fn paint_op(has_fill: bool, has_outline: bool) -> (op: PaintOp)
    ensures
        has_fill && has_outline ==> op == PaintOp::FillAndStroke,
        has_fill && !has_outline ==> op == PaintOp::Fill,
        !has_fill && has_outline ==> op == PaintOp::Stroke,
        !has_fill && !has_outline ==> op == PaintOp::Nothing,
{
    match (has_fill, has_outline) {
        (true, true) => PaintOp::FillAndStroke,
        (true, false) => PaintOp::Fill,
        (false, true) => PaintOp::Stroke,
        (false, false) => PaintOp::Nothing,
    }
}

} // verus!
