use keyset::drawing::{inner_rect, outer_rect};
use keyset::geom::{Point, Rect};
use keyset::key::{
    chars_contain, key_from_kle, shape_from_kle, Homing, Key, KeySize, KleDims, KleError,
    KleLegend, Legend, Legends, Shape,
};
use keyset::units::{ConvertFrom, Dot, KeyUnit, Length, SUBDIVISIONS_PER_KEY_UNIT};

type Color = (f32, f32, f32);

fn ku(num: i64, den: u64) -> KeyUnit {
    KeyUnit::from_ratio(num, den).unwrap()
}

fn dims(w: i64, h: i64, x2: i64, y2: i64, w2: i64, h2: i64) -> KleDims {
    KleDims {
        w: ku(w, 100),
        h: ku(h, 100),
        x2: ku(x2, 100),
        y2: ku(y2, 100),
        w2: ku(w2, 100),
        h2: ku(h2, 100),
    }
}

fn default_dims() -> KleDims {
    dims(100, 100, 0, 0, 100, 100)
}

fn rect_ku(x0: i64, y0: i64, x1: i64, y1: i64) -> Rect {
    // Corners in hundredths of a key unit
    let d = |v: i64| Dot::convert_from(ku(v, 100));
    Rect::new(Point::new(d(x0), d(y0)), Point::new(d(x1), d(y1)))
}

fn text_of<C>(legend: &Option<Legend<C>>) -> String {
    legend.as_ref().unwrap().text.to_string()
}

#[test]
fn legend_legend_new() {
    let legend = Legend::new("test", 4, (0.0f32, 0.2f32, 0.4f32));

    assert_eq!(legend.text.to_string(), "test");
    assert_eq!(legend.size_idx, 4);
    assert_eq!(legend.color, (0.0, 0.2, 0.4));
}

#[test]
fn mod_legend_new() {
    let legend = Legend::new("test", 4, (0.0f32, 0.2f32, 0.4f32));

    assert_eq!(legend.text.to_string(), "test");
    assert_eq!(legend.size_idx, 4);
    assert_eq!(legend.color, (0.0, 0.2, 0.4));
}

#[test]
fn legend_legends_example() {
    let legends = Legends::example((0.0f32, 0.0f32, 0.0f32));
    let legend_is_some = [true, false, true, false, false, false, true, false, true];

    for (legend, is_some) in legends.into_array().into_iter().zip(legend_is_some) {
        assert_eq!(legend.is_some(), is_some);
    }
}

#[test]
fn mod_legends_example() {
    let legends = Legend::example_set((0.0f32, 0.0f32, 0.0f32));
    let legend_is_some = [true, false, true, false, false, false, true, false, true];

    for (legend, is_some) in legends.into_iter().zip(legend_is_some) {
        assert_eq!(legend.is_some(), is_some);
    }
}

#[test]
fn legends_iter() {
    let legends: Legends<Color> = Legends::default();
    let mut iter = legends.iter().iter();

    for _ in 0..9 {
        assert!(iter.next().is_some());
    }
    assert!(iter.next().is_none());
}

#[test]
fn legends_from() {
    let legends: Legends<Color> = Legends::from_slots([
        Some(Legend::new("A", 3, (0.0, 0.2, 0.4))),
        None,
        None,
        None,
        Some(Legend::new("B", 4, (0.3, 0.5, 0.7))),
        None,
        None,
        None,
        Some(Legend::new("C", 5, (0.6, 0.8, 1.0))),
    ]);
    let legend_is_some = [true, false, false, false, true, false, false, false, true];

    for (legend, is_some) in legends.into_array().into_iter().zip(legend_is_some) {
        assert_eq!(legend.is_some(), is_some);
    }

    let legends: Legends<Color> = Legends::from_rows([
        [Some(Legend::new("A", 3, (0.0, 0.2, 0.4))), None, None],
        [None, Some(Legend::new("B", 4, (0.3, 0.5, 0.7))), None],
        [None, None, Some(Legend::new("C", 5, (0.6, 0.8, 1.0)))],
    ]);

    for (legend, is_some) in legends.into_array().into_iter().zip(legend_is_some) {
        assert_eq!(legend.is_some(), is_some);
    }
}

#[test]
fn legends_into_iter() {
    let legends: Legends<Color> = Legends::default();
    let mut iter = legends.into_array().into_iter();

    for _ in 0..9 {
        assert!(iter.next().is_some());
    }
    assert!(iter.next().is_none());
}

#[test]
fn legends_index() {
    let legends = Legends::example((0.0f32, 0.0f32, 0.0f32));

    assert_eq!(text_of(legends.get(0)), "!");
    assert_eq!(text_of(legends.get(2)), "¹");
    assert_eq!(text_of(legends.get(6)), "1");
    assert_eq!(text_of(legends.get(8)), "¡");

    assert_eq!(text_of(legends.get_at(0, 0)), "!");
    assert_eq!(text_of(legends.get_at(2, 0)), "¹");
    assert_eq!(text_of(legends.get_at(0, 2)), "1");
    assert_eq!(text_of(legends.get_at(2, 2)), "¡");
}

#[test]
fn legends_index_mut() {
    let mut legends: Legends<Color> = Legends::default();

    legends.set(0, Some(Legend::new("A", 4, (0.2, 0.4, 0.6))));
    legends.set(2, Some(Legend::new("B", 4, (0.2, 0.4, 0.6))));
    legends.set(6, Some(Legend::new("C", 4, (0.2, 0.4, 0.6))));
    legends.set(8, Some(Legend::new("D", 4, (0.2, 0.4, 0.6))));
    assert_eq!(text_of(legends.get(0)), "A");
    assert_eq!(text_of(legends.get(2)), "B");
    assert_eq!(text_of(legends.get(6)), "C");
    assert_eq!(text_of(legends.get(8)), "D");

    legends.set_at(0, 0, Some(Legend::new("A", 4, (0.2, 0.4, 0.6))));
    legends.set_at(2, 0, Some(Legend::new("B", 4, (0.2, 0.4, 0.6))));
    legends.set_at(0, 2, Some(Legend::new("C", 4, (0.2, 0.4, 0.6))));
    legends.set_at(2, 2, Some(Legend::new("D", 4, (0.2, 0.4, 0.6))));
    assert_eq!(text_of(legends.get_at(0, 0)), "A");
    assert_eq!(text_of(legends.get_at(2, 0)), "B");
    assert_eq!(text_of(legends.get_at(0, 2)), "C");
    assert_eq!(text_of(legends.get_at(2, 2)), "D");
}

#[test]
fn legends_count_present() {
    let legends = Legends::example((0.0f32, 0.0f32, 0.0f32));
    assert_eq!(legends.count(), 4);
    let legends: Legends<Color> = Legends::empty();
    assert_eq!(legends.count(), 0);
}

#[test]
fn shape_bounds() {
    let size = KeySize::new(ku(225, 100), ku(100, 100));
    assert_eq!(outer_rect(Shape::Normal(size)), rect_ku(0, 0, 225, 100));
    assert_eq!(outer_rect(Shape::IsoVertical), rect_ku(0, 0, 150, 200));
    assert_eq!(outer_rect(Shape::IsoHorizontal), rect_ku(0, 0, 150, 200));
    assert_eq!(outer_rect(Shape::SteppedCaps), rect_ku(0, 0, 175, 100));
}

#[test]
fn shape_margin() {
    let size = KeySize::new(ku(225, 100), ku(100, 100));
    assert_eq!(inner_rect(Shape::Normal(size)), rect_ku(0, 0, 225, 100));
    assert_eq!(inner_rect(Shape::IsoVertical), rect_ku(25, 0, 150, 200));
    assert_eq!(inner_rect(Shape::IsoHorizontal), rect_ku(0, 0, 150, 100));
    assert_eq!(inner_rect(Shape::SteppedCaps), rect_ku(0, 0, 125, 100));
}

#[test]
fn shape_from() {
    let shape = Shape::from(KeySize::new(ku(175, 100), ku(1, 1)));
    assert!(matches!(shape, Shape::Normal(x) if x == KeySize::new(ku(175, 100), ku(1, 1))));
}

#[test]
fn key_new() {
    let key: Key<(KeyUnit, KeyUnit), Color> =
        Key::new((KeyUnit::zero(), KeyUnit::zero()), (0.8, 0.8, 0.8));

    assert_eq!(key.position, (KeyUnit::zero(), KeyUnit::zero()));
    assert!(matches!(key.shape, Shape::Normal(size) if size == KeySize::unit()));
    assert_eq!(key.color, (0.8, 0.8, 0.8));
    for el in key.legends.iter() {
        assert!(el.is_none());
    }
}

#[test]
fn key_shape_from_kle() {
    let default_key = shape_from_kle("", false, false, default_dims()).unwrap();
    let decal = shape_from_kle("", false, true, default_dims()).unwrap();
    let space = shape_from_kle("space", false, false, default_dims()).unwrap();
    let homing_default = shape_from_kle("", true, false, default_dims()).unwrap();
    let homing_scoop = shape_from_kle("scoop", false, false, default_dims()).unwrap();
    let homing_bar = shape_from_kle("bar", false, false, default_dims()).unwrap();
    let homing_bump = shape_from_kle("bump", false, false, default_dims()).unwrap();
    let regular_key = shape_from_kle("", false, false, dims(225, 100, 0, 0, 225, 100)).unwrap();
    let iso_horiz = shape_from_kle("", false, false, dims(150, 100, 25, 0, 125, 200)).unwrap();
    let iso_vert = shape_from_kle("", false, false, dims(125, 200, -25, 0, 150, 100)).unwrap();
    let step_caps = shape_from_kle("", false, false, dims(125, 100, 0, 0, 175, 100)).unwrap();

    let unit = KeySize::unit();
    assert!(matches!(default_key, Shape::Normal(size) if size == unit));
    assert!(
        matches!(regular_key, Shape::Normal(size) if size == KeySize::new(ku(225, 100), ku(1, 1)))
    );
    assert!(matches!(decal, Shape::Decal(size) if size == unit));
    assert!(matches!(space, Shape::Space(size) if size == unit));
    assert!(matches!(homing_default, Shape::Homing(None)));
    assert!(matches!(homing_scoop, Shape::Homing(Some(Homing::Scoop))));
    assert!(matches!(homing_bar, Shape::Homing(Some(Homing::Bar))));
    assert!(matches!(homing_bump, Shape::Homing(Some(Homing::Bump))));
    assert!(matches!(iso_horiz, Shape::IsoHorizontal));
    assert!(matches!(iso_vert, Shape::IsoVertical));
    assert!(matches!(step_caps, Shape::SteppedCaps));
}

#[test]
fn key_shape_from_kle_invalid() {
    let d = dims(100, 100, -25, 0, 150, 100);
    let invalid = shape_from_kle("", false, false, d);
    assert!(invalid.is_none());

    let error = KleError::UnsupportedKeySize(d);
    assert_eq!(
        error.to_string(),
        "unsupported non-standard key size (w: 1.00, h: 1.00, \
         x2: -0.25, y2: 0.00, w2: 1.50, h2: 1.00). Note only ISO enter and stepped caps \
         are supported as special cases"
    );
}

#[test]
fn kle_dimensions_tolerance() {
    // Within a hundredth of a key unit the dimensions still match
    let almost = KleDims {
        w: KeyUnit::from_subdivisions(SUBDIVISIONS_PER_KEY_UNIT + SUBDIVISIONS_PER_KEY_UNIT / 100 - 1),
        ..default_dims()
    };
    assert!(matches!(shape_from_kle("", false, false, almost), Some(Shape::Normal(_))));
    assert!(matches!(shape_from_kle("bar", false, false, almost), Some(Shape::Homing(Some(Homing::Bar)))));
    let off = KleDims { w: ku(101, 100), ..default_dims() };
    // no longer 1u, and its second rectangle no longer matches the first
    assert_eq!(shape_from_kle("bar", false, false, off), None);
    let wide = KleDims { w: ku(101, 100), w2: ku(101, 100), ..default_dims() };
    assert!(matches!(shape_from_kle("bar", false, false, wide), Some(Shape::Normal(_))));
    // the first rule that applies wins
    assert!(matches!(
        shape_from_kle("dish space", true, true, default_dims()),
        Some(Shape::Homing(Some(Homing::Scoop)))
    ));
    assert!(matches!(shape_from_kle("dot", false, false, default_dims()), Some(Shape::Homing(Some(Homing::Bump)))));
    assert!(matches!(
        shape_from_kle("space", true, false, dims(625, 100, 0, 0, 625, 100)),
        Some(Shape::Space(_))
    ));
}

#[test]
fn kle_error_message_rounding() {
    let error = KleError::UnsupportedKeySize(KleDims {
        w: ku(12345, 1000),
        h: ku(-1, 1000),
        x2: ku(125, 1000),
        y2: ku(135, 1000),
        w2: ku(100, 1),
        h2: KeyUnit::zero(),
    });
    assert_eq!(
        error.to_string(),
        "unsupported non-standard key size (w: 12.34, h: -0.00, x2: 0.12, y2: 0.14, \
         w2: 100.00, h2: 0.00). Note only ISO enter and stepped caps are supported as special cases"
    );
}

#[test]
fn key_from_kle_legends_and_position() {
    let mut legends: Vec<Option<KleLegend<Color>>> = Vec::new();
    for i in 0..12 {
        legends.push(if i % 4 == 0 {
            Some(KleLegend { text: format!("L{i}<br>x"), size: i, color: (0.0, 0.0, 0.0) })
        } else {
            None
        });
    }
    let key = key_from_kle(
        ku(3, 1),
        ku(2, 1),
        dims(125, 200, -25, 0, 150, 100),
        "",
        false,
        false,
        (0.5, 0.5, 0.5),
        legends,
    )
    .unwrap();
    assert_eq!(key.position, (ku(275, 100), ku(2, 1)));
    assert!(matches!(key.shape, Shape::IsoVertical));
    assert_eq!(key.legends.count(), 3);
    assert_eq!(key.legends.get(0).as_ref().unwrap().text.lines(), vec!["L0", "x"]);
    assert_eq!(key.legends.get(4).as_ref().unwrap().size_idx, 4);
    assert_eq!(key.legends.get(8).as_ref().unwrap().text.lines(), vec!["L8", "x"]);

    let mut legends: Vec<Option<KleLegend<Color>>> = Vec::new();
    for _ in 0..12 {
        legends.push(None);
    }
    let d = dims(100, 100, -25, 0, 150, 100);
    let error = key_from_kle(KeyUnit::zero(), KeyUnit::zero(), d, "", false, false, (0.0, 0.0, 0.0), legends);
    assert!(matches!(error, Err(KleError::UnsupportedKeySize(x)) if x == d));
}

#[test]
fn chars_contain_runs() {
    let hay: Vec<char> = "deep-dish".chars().collect();
    assert!(chars_contain(&hay, &"dish".chars().collect()));
    assert!(chars_contain(&hay, &Vec::new()));
    assert!(!chars_contain(&hay, &"dishes".chars().collect()));
    assert!(!chars_contain(&Vec::new(), &"a".chars().collect()));
}
