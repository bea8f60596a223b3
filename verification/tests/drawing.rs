use keyset::drawing::{drawing_bounds, plan_key_drawing, required_capacity, LegendPlacement, ShapePath};
use keyset::geom::{Point, Rect, Vector};
use keyset::key::{Homing, Key, KeySize, Legend, Legends, Shape};
use keyset::profile::Profile;
use keyset::units::{ConvertFrom, Dot, KeyUnit};

type Color = (f32, f32, f32);

fn example_key() -> Key<(KeyUnit, KeyUnit), Color> {
    let mut key = Key::new((KeyUnit::zero(), KeyUnit::zero()), (0.8, 0.8, 0.8));
    key.legends = Legends::example((0.0, 0.0, 0.0));
    key
}

fn ku(num: i64, den: u64) -> Dot {
    Dot::convert_from(KeyUnit::from_ratio(num, den).unwrap())
}

#[test]
fn mod_test_key_drawing_new() {
    let profile = Profile::default();

    // Regular 1u
    let key = example_key();
    let plan = plan_key_drawing(&key, &profile, true, false);
    assert_eq!(plan.len(), 6); // top, bottom, 4x legends

    // Stepped caps
    let mut key = example_key();
    key.shape = Shape::SteppedCaps;
    let plan = plan_key_drawing(&key, &profile, true, false);
    assert_eq!(plan.len(), 7); // top, bottom, step, 4x legends

    // ISO H
    let mut key = example_key();
    key.shape = Shape::IsoHorizontal;
    let plan = plan_key_drawing(&key, &profile, true, true);
    assert_eq!(plan.len(), 7); // top, bottom, margin, 4x legends
    let margin = plan.margin.as_ref().unwrap();
    assert_eq!(margin.len(), 1);
    let font_size = key.legends.get(0).as_ref().unwrap().size_idx;
    let top_rect = profile.top.to_rect();
    let top_rect = top_rect.grow(Vector::splat(Dot::zero()), Vector::new(ku(5, 10), Dot::zero()));
    let margin_rect = top_rect.inset(profile.legend_geom.margin_for_kle_size(font_size));
    assert_eq!(margin[0], margin_rect);
    let expected = Rect::new(
        Point::new(Dot::new(220), Dot::new(105)),
        Point::new(Dot::new(1280), Dot::new(740)),
    );
    assert_eq!(margin[0], expected);
    assert_eq!(plan.len(), required_capacity(&key, &profile, true, true));

    // ISO V
    let mut key = example_key();
    key.shape = Shape::IsoVertical;
    let plan = plan_key_drawing(&key, &profile, true, true);
    assert_eq!(plan.len(), 7); // top, bottom, margin, 4x legends
    let margin = plan.margin.as_ref().unwrap();
    let top_rect = profile.top.to_rect();
    let top_rect = top_rect.grow(Vector::splat(Dot::zero()), Vector::new(ku(25, 100), ku(1, 1)));
    let margin_rect = top_rect
        .translate(Vector::new(ku(25, 100), Dot::zero()))
        .inset(profile.legend_geom.margin_for_kle_size(font_size));
    assert_eq!(margin[0], margin_rect);
}

#[test]
fn key_drawing_shape_paths() {
    let profile = Profile::default();
    let unit = KeySize::unit();

    let mut key = example_key();
    key.shape = Shape::Homing(None);
    let plan = plan_key_drawing(&key, &profile, true, false);
    assert_eq!(
        plan.shape_paths,
        vec![ShapePath::Bottom(unit), ShapePath::Top(unit), ShapePath::HomingBar]
    );

    key.shape = Shape::Homing(Some(Homing::Scoop));
    let plan = plan_key_drawing(&key, &profile, true, false);
    assert_eq!(plan.shape_paths, vec![ShapePath::Bottom(unit), ShapePath::Top(unit)]);

    key.shape = Shape::Homing(Some(Homing::Bump));
    let plan = plan_key_drawing(&key, &profile, true, false);
    assert_eq!(
        plan.shape_paths,
        vec![ShapePath::Bottom(unit), ShapePath::Top(unit), ShapePath::HomingBump]
    );

    key.shape = Shape::Decal(unit);
    let plan = plan_key_drawing(&key, &profile, true, false);
    assert!(plan.shape_paths.is_empty());
    assert_eq!(plan.len(), 4);

    key.shape = Shape::Normal(unit);
    let plan = plan_key_drawing(&key, &profile, false, false);
    assert!(plan.shape_paths.is_empty());
    assert!(plan.margin.is_none());
    assert_eq!(plan.len(), 4);
}

#[test]
fn key_drawing_legend_placements() {
    let profile = Profile::default();
    let key = example_key();
    let plan = plan_key_drawing(&key, &profile, true, false);
    let positions: Vec<(usize, usize, usize)> =
        plan.legends.iter().map(|p: &LegendPlacement| (p.index, p.column, p.row)).collect();
    assert_eq!(positions, vec![(0, 0, 0), (2, 2, 0), (6, 0, 2), (8, 2, 2)]);
    for placement in &plan.legends {
        assert_eq!(placement.height, profile.legend_geom.symbol.height);
        assert_eq!(placement.bounds, plan.top_rect.inset(profile.legend_geom.symbol.margin));
    }
    // The key top of a 1u key is the profile's
    assert_eq!(plan.top_rect, profile.top.to_rect());
}

#[test]
fn key_drawing_margins_deduplicated() {
    let profile = Profile::default();
    let mut key = example_key();
    key.legends.set(4, Some(Legend::new("x", 5, (0.0, 0.0, 0.0))));
    key.legends.set(5, Some(Legend::new("y", 2, (0.0, 0.0, 0.0))));
    let plan = plan_key_drawing(&key, &profile, true, true);
    let margin = plan.margin.as_ref().unwrap();
    // All default margins are equal, so one rectangle is drawn
    assert_eq!(margin.len(), 1);

    let mut profile = Profile::default();
    profile.legend_geom.alpha.margin.top = Dot::zero();
    let plan = plan_key_drawing(&key, &profile, true, true);
    let margin = plan.margin.as_ref().unwrap();
    assert_eq!(margin.len(), 2);
    let top: Rect = plan.top_rect;
    assert_eq!(margin[1].min.y, top.min.y);
}

#[test]
fn key_drawing_required_capacity() {
    let profile = Profile::default();
    let shapes = [
        Shape::Normal(KeySize::unit()),
        Shape::Homing(None),
        Shape::Homing(Some(Homing::Scoop)),
        Shape::SteppedCaps,
        Shape::IsoVertical,
        Shape::IsoHorizontal,
        Shape::Decal(KeySize::unit()),
    ];
    for shape in shapes {
        for show_keys in [false, true] {
            for show_margin in [false, true] {
                let mut key = example_key();
                key.shape = shape;
                let plan = plan_key_drawing(&key, &profile, show_keys, show_margin);
                assert_eq!(plan.len(), required_capacity(&key, &profile, show_keys, show_margin));
            }
        }
    }
    let mut key = example_key();
    key.shape = Shape::SteppedCaps;
    assert_eq!(required_capacity(&key, &profile, true, true), 8);
}

#[test]
fn layout_bounds_hold_every_key() {
    let ku_at = |num: i64, den: u64| KeyUnit::from_ratio(num, den).unwrap();
    let mut first: Key<(KeyUnit, KeyUnit), Color> = Key::new((ku_at(2, 1), ku_at(0, 1)), (0.0, 0.0, 0.0));
    first.shape = Shape::IsoVertical;
    let mut second: Key<(KeyUnit, KeyUnit), Color> = Key::new((ku_at(-1, 2), ku_at(3, 1)), (0.0, 0.0, 0.0));
    second.shape = Shape::Normal(KeySize::new(ku_at(625, 100), ku_at(1, 1)));
    let bounds = drawing_bounds(&vec![first, second]);
    assert_eq!(bounds.min, Point::new(ku(-1, 2), ku(0, 1)));
    assert_eq!(bounds.max, Point::new(ku(575, 100), ku(4, 1)));

    // An empty layout still holds a 1u key at the origin
    let empty: Vec<Key<(KeyUnit, KeyUnit), Color>> = Vec::new();
    let bounds = drawing_bounds(&empty);
    assert_eq!(bounds, Rect::new(Point::new(ku(0, 1), ku(0, 1)), Point::new(ku(1, 1), ku(1, 1))));
}

#[test]
fn close_margin_rects_drawn_once() {
    // Margins that differ by one subdivision (a millionth of a dot) are drawn as one
    let mut profile = Profile::default();
    let left = profile.legend_geom.alpha.margin.left;
    profile.legend_geom.alpha.margin.left = Dot { subdivisions: left.subdivisions + 1 };
    let mut key = Key::new((KeyUnit::zero(), KeyUnit::zero()), (0.8f32, 0.8f32, 0.8f32));
    key.legends.set(0, Some(Legend::new("a", 4, (0.0, 0.0, 0.0))));
    key.legends.set(1, Some(Legend::new("b", 5, (0.0, 0.0, 0.0))));
    let plan = plan_key_drawing(&key, &profile, true, true);
    assert_eq!(plan.margin.as_ref().unwrap().len(), 1);

    // A margin a whole dot larger is drawn separately
    let mut profile = Profile::default();
    profile.legend_geom.alpha.margin.left = Dot { subdivisions: left.subdivisions + 1_143_000 };
    let plan = plan_key_drawing(&key, &profile, true, true);
    assert_eq!(plan.margin.as_ref().unwrap().len(), 2);

    let a = Rect::new(Point::new(Dot::new(220), Dot::new(105)), Point::new(Dot::new(1280), Dot::new(740)));
    let b = Rect::new(
        Point::new(Dot { subdivisions: a.min.x.subdivisions + 1 }, a.min.y),
        a.max,
    );
    assert!(a.is_close(&b));
    assert!(!a.is_close(&Rect::new(Point::new(Dot::new(221), Dot::new(105)), a.max)));
}
