use keyset::geom::{OffsetRect, Point, Rect, Vector};
use keyset::units::{ConvertFrom, Dot, Mm};

// Lengths in the geometry are in dots; these tests write them in millimetres, converted exactly
fn mm(num: i64, den: u64) -> Dot {
    Dot::convert_from(Mm::from_ratio(num, den).unwrap())
}

#[test]
fn point_new() {
    let point = Point::new(mm(2, 1), mm(3, 1));
    assert_eq!(point.x, mm(2, 1));
    assert_eq!(point.y, mm(3, 1));
}

#[test]
fn point_splat() {
    let point = Point::splat(mm(2, 1));
    assert_eq!(point.x, mm(2, 1));
    assert_eq!(point.y, mm(2, 1));
}

#[test]
fn vector_new() {
    let vector = Vector::new(mm(2, 1), mm(3, 1));
    assert_eq!(vector.x, mm(2, 1));
    assert_eq!(vector.y, mm(3, 1));
}

#[test]
fn vector_splat() {
    let vector = Vector::splat(mm(2, 1));
    assert_eq!(vector.x, mm(2, 1));
    assert_eq!(vector.y, mm(2, 1));
}

#[test]
fn rect_new() {
    let rect = Rect::new(Point::new(mm(0, 1), mm(1, 1)), Point::new(mm(2, 1), mm(4, 1)));
    assert_eq!(rect.min, Point::new(mm(0, 1), mm(1, 1)));
    assert_eq!(rect.max, Point::new(mm(2, 1), mm(4, 1)));
}

#[test]
fn rect_rect_from_center_and_size() {
    let rect = Rect::from_center_and_size(Point::new(mm(1, 1), mm(25, 10)), Vector::new(mm(2, 1), mm(3, 1)));
    assert_eq!(rect.min, Point::new(mm(0, 1), mm(1, 1)));
    assert_eq!(rect.max, Point::new(mm(2, 1), mm(4, 1)));
}

#[test]
fn rect_width() {
    let rect = Rect { min: Point::new(mm(0, 1), mm(1, 1)), max: Point::new(mm(2, 1), mm(4, 1)) };
    assert_eq!(rect.width(), mm(2, 1));
}

#[test]
fn rect_height() {
    let rect = Rect { min: Point::new(mm(0, 1), mm(1, 1)), max: Point::new(mm(2, 1), mm(4, 1)) };
    assert_eq!(rect.height(), mm(3, 1));
}

#[test]
fn rect_sub_offset_rect() {
    let rect = Rect { min: Point::new(mm(0, 1), mm(1, 1)), max: Point::new(mm(2, 1), mm(4, 1)) }
        .inset(OffsetRect::new(mm(2, 1), mm(15, 10), mm(1, 1), mm(5, 10)));
    assert_eq!(rect.min, Point::new(mm(5, 10), mm(3, 1)));
    assert_eq!(rect.max, Point::new(mm(5, 10), mm(3, 1)));
}

#[test]
fn offset_rect_new() {
    let rect = OffsetRect::new(mm(2, 1), mm(15, 10), mm(1, 1), mm(5, 10));
    assert_eq!((rect.left, rect.top), (mm(5, 10), mm(2, 1)));
    assert_eq!((rect.right, rect.bottom), (mm(15, 10), mm(1, 1)));
}

#[test]
fn offset_rect_splat() {
    let rect = OffsetRect::splat(mm(2, 1));
    assert_eq!((rect.left, rect.top), (mm(2, 1), mm(2, 1)));
    assert_eq!((rect.right, rect.bottom), (mm(2, 1), mm(2, 1)));
}

#[test]
fn rect_grow_and_translate() {
    let rect = Rect { min: Point::new(mm(0, 1), mm(1, 1)), max: Point::new(mm(2, 1), mm(4, 1)) };
    let moved = rect.translate(Vector::new(mm(2, 1), mm(-1, 1)));
    assert_eq!(moved.min, Point::new(mm(2, 1), mm(0, 1)));
    assert_eq!(moved.max, Point::new(mm(4, 1), mm(3, 1)));
    let grown = rect.grow(Vector::new(mm(-1, 1), mm(0, 1)), Vector::new(mm(1, 1), mm(2, 1)));
    assert_eq!(grown.min, Point::new(mm(-1, 1), mm(1, 1)));
    assert_eq!(grown.max, Point::new(mm(3, 1), mm(6, 1)));
}

#[test]
fn rect_from_center_and_odd_size() {
    // An odd number of subdivisions puts the centre half a subdivision off the middle
    let rect = Rect::from_center_and_size(Point::splat(Dot::zero()), Vector::splat(Dot::from_ratio(1, 1).unwrap()));
    assert_eq!(rect.max.x.subdivisions - rect.min.x.subdivisions, Dot::from_ratio(1, 1).unwrap().subdivisions);
    let odd = Dot { subdivisions: 3 };
    let rect = Rect::from_center_and_size(Point::splat(Dot::zero()), Vector::splat(odd));
    assert_eq!(rect.min.x.subdivisions, -1);
    assert_eq!(rect.max.x.subdivisions, 2);
}
