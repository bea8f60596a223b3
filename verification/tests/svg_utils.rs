use keyset::geom::{Point, Rect};
use keyset::svg_utils::{ToSvg, ToViewBox};
use keyset::units::{Dot, Length, SUBDIVISIONS_PER_DOT};

fn dot(num: i64, den: u64) -> Dot {
    Dot::from_ratio(num, den).unwrap()
}

#[test]
fn dot_to_svg_numbers() {
    assert_eq!(Dot::new(1000).to_svg(), "1000");
    assert_eq!(dot(1, 2).to_svg(), "0.5");
    assert_eq!(dot(-225, 100).to_svg(), "-2.25");
    assert_eq!(dot(1, 8).to_svg(), "0.125");
    assert_eq!(dot(4000, 3).to_svg(), "1333.333");
    assert_eq!(dot(2000, 3).to_svg(), "666.667");
    assert_eq!(Dot::zero().to_svg(), "0");
    // negative lengths keep their sign even where they round to zero
    assert_eq!(Dot::from_subdivisions(-1).to_svg(), "-0");
    // rounding to the nearest thousandth of a dot
    assert_eq!(Dot::from_subdivisions(SUBDIVISIONS_PER_DOT / 1000 / 2).to_svg(), "0");
    assert_eq!(Dot::from_subdivisions(SUBDIVISIONS_PER_DOT / 1000 / 2 + 1).to_svg(), "0.001");
}

#[test]
fn rect_to_view_box() {
    let rect = Rect::new(Point::new(Dot::zero(), Dot::zero()), Point::new(Dot::new(1000), Dot::new(1000)));
    assert_eq!(rect.to_view_box(), "0 0 1000 1000");
    let rect = Rect::new(
        Point::new(dot(-250, 1), dot(-1, 2)),
        Point::new(Dot::new(1750), Dot::new(2000)),
    );
    assert_eq!(rect.to_view_box(), "-250-0.5 2000 2000.5");
}
