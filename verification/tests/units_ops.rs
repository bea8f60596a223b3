use keyset::units::{ConvertFrom, Dot, Inch, KeyUnit, Length, Mm};

fn r<T: Length>(num: i64, den: u64, make: fn(i64, u64) -> Option<T>) -> T {
    make(num, den).unwrap()
}

#[test]
fn key_unit() {
    let v = KeyUnit::convert_from(r(500, 1, Dot::from_ratio));
    assert_eq!(v, r(5, 10, KeyUnit::from_ratio));

    let v = KeyUnit::convert_from(r(381, 10, Mm::from_ratio));
    assert_eq!(v, r(2, 1, KeyUnit::from_ratio));

    let v = KeyUnit::convert_from(r(1, 1, Inch::from_ratio));
    assert_eq!(v, r(4, 3, KeyUnit::from_ratio));

    let v = KeyUnit::new(3);
    assert_eq!(v, r(3, 1, KeyUnit::from_ratio));

    let v = r(25, 10, KeyUnit::from_ratio);
    assert_eq!(v.subdivisions(), 25 * KeyUnit::unit_subdivisions() / 10);

    let v = KeyUnit::zero();
    assert_eq!(v.subdivisions(), 0);
}

#[test]
fn key_unit_cmp() {
    let v1 = r(4, 3, KeyUnit::from_ratio);
    let v2 = r(15, 10, KeyUnit::from_ratio);

    assert_eq!(v1.max(v2), r(15, 10, KeyUnit::from_ratio));
    assert_eq!(v1.min(v2), r(4, 3, KeyUnit::from_ratio));
}

#[test]
fn key_unit_abs() {
    let v = r(25, 10, KeyUnit::from_ratio);
    assert_eq!(v.abs(), r(25, 10, KeyUnit::from_ratio));

    let v = r(-25, 10, KeyUnit::from_ratio);
    assert_eq!(v.abs(), r(25, 10, KeyUnit::from_ratio));
}

#[test]
fn key_unit_add() {
    let v = KeyUnit::new(2) + KeyUnit::new(1);
    assert_eq!(v, KeyUnit::new(3));
}

#[test]
fn key_unit_sub() {
    let v = KeyUnit::new(2) - KeyUnit::new(1);
    assert_eq!(v, KeyUnit::new(1));
}

#[test]
fn key_unit_neg() {
    let v = -KeyUnit::new(2);
    assert_eq!(v, KeyUnit::new(-2));
}

#[test]
fn dot() {
    let v = Dot::convert_from(r(5, 10, KeyUnit::from_ratio));
    assert_eq!(v, r(500, 1, Dot::from_ratio));

    let v = Dot::convert_from(r(381, 10, Mm::from_ratio));
    assert_eq!(v, r(2000, 1, Dot::from_ratio));

    let v = Dot::convert_from(r(1, 1, Inch::from_ratio));
    assert_eq!(v, r(4000, 3, Dot::from_ratio));

    let v = Dot::new(3);
    assert_eq!(v, r(3, 1, Dot::from_ratio));

    let v = r(25, 10, Dot::from_ratio);
    assert_eq!(v.subdivisions(), 25 * Dot::unit_subdivisions() / 10);

    let v = Dot::zero();
    assert_eq!(v.subdivisions(), 0);
}

#[test]
fn dot_cmp() {
    let v1 = r(4, 3, Dot::from_ratio);
    let v2 = r(15, 10, Dot::from_ratio);

    assert_eq!(v1.max(v2), r(15, 10, Dot::from_ratio));
    assert_eq!(v1.min(v2), r(4, 3, Dot::from_ratio));
}

#[test]
fn dot_abs() {
    let v = r(25, 10, Dot::from_ratio);
    assert_eq!(v.abs(), r(25, 10, Dot::from_ratio));

    let v = r(-25, 10, Dot::from_ratio);
    assert_eq!(v.abs(), r(25, 10, Dot::from_ratio));
}

#[test]
fn dot_add() {
    let v = Dot::new(2) + Dot::new(1);
    assert_eq!(v, Dot::new(3));
}

#[test]
fn dot_sub() {
    let v = Dot::new(2) - Dot::new(1);
    assert_eq!(v, Dot::new(1));
}

#[test]
fn dot_neg() {
    let v = -Dot::new(2);
    assert_eq!(v, Dot::new(-2));
}

#[test]
fn mm() {
    let v = Mm::convert_from(r(5, 10, KeyUnit::from_ratio));
    assert_eq!(v, r(9525, 1000, Mm::from_ratio));

    let v = Mm::convert_from(r(2000, 1, Dot::from_ratio));
    assert_eq!(v, r(381, 10, Mm::from_ratio));

    let v = Mm::convert_from(r(1, 1, Inch::from_ratio));
    assert_eq!(v, r(254, 10, Mm::from_ratio));

    let v = Mm::new(3);
    assert_eq!(v, r(3, 1, Mm::from_ratio));

    let v = r(25, 10, Mm::from_ratio);
    assert_eq!(v.subdivisions(), 25 * Mm::unit_subdivisions() / 10);

    let v = Mm::zero();
    assert_eq!(v.subdivisions(), 0);
}

#[test]
fn mm_cmp() {
    let v1 = r(4, 3, Mm::from_ratio);
    let v2 = r(15, 10, Mm::from_ratio);

    assert_eq!(v1.max(v2), r(15, 10, Mm::from_ratio));
    assert_eq!(v1.min(v2), r(4, 3, Mm::from_ratio));
}

#[test]
fn mm_abs() {
    let v = r(25, 10, Mm::from_ratio);
    assert_eq!(v.abs(), r(25, 10, Mm::from_ratio));

    let v = r(-25, 10, Mm::from_ratio);
    assert_eq!(v.abs(), r(25, 10, Mm::from_ratio));
}

#[test]
fn mm_add() {
    let v = Mm::new(2) + Mm::new(1);
    assert_eq!(v, Mm::new(3));
}

#[test]
fn mm_sub() {
    let v = Mm::new(2) - Mm::new(1);
    assert_eq!(v, Mm::new(1));
}

#[test]
fn mm_neg() {
    let v = -Mm::new(2);
    assert_eq!(v, Mm::new(-2));
}

#[test]
fn inch() {
    let v = Inch::convert_from(r(4, 3, KeyUnit::from_ratio));
    assert_eq!(v, r(1, 1, Inch::from_ratio));

    let v = Inch::convert_from(r(2000, 1, Dot::from_ratio));
    assert_eq!(v, r(15, 10, Inch::from_ratio));

    let v = Inch::convert_from(r(1905, 100, Mm::from_ratio));
    assert_eq!(v, r(75, 100, Inch::from_ratio));

    let v = Inch::new(3);
    assert_eq!(v, r(3, 1, Inch::from_ratio));

    let v = r(25, 10, Inch::from_ratio);
    assert_eq!(v.subdivisions(), 25 * Inch::unit_subdivisions() / 10);

    let v = Inch::zero();
    assert_eq!(v.subdivisions(), 0);
}

#[test]
fn inch_cmp() {
    let v1 = r(4, 3, Inch::from_ratio);
    let v2 = r(15, 10, Inch::from_ratio);

    assert_eq!(v1.max(v2), r(15, 10, Inch::from_ratio));
    assert_eq!(v1.min(v2), r(4, 3, Inch::from_ratio));
}

#[test]
fn inch_abs() {
    let v = r(25, 10, Inch::from_ratio);
    assert_eq!(v.abs(), r(25, 10, Inch::from_ratio));

    let v = r(-25, 10, Inch::from_ratio);
    assert_eq!(v.abs(), r(25, 10, Inch::from_ratio));
}

#[test]
fn inch_add() {
    let v = Inch::new(2) + Inch::new(1);
    assert_eq!(v, Inch::new(3));
}

#[test]
fn inch_sub() {
    let v = Inch::new(2) - Inch::new(1);
    assert_eq!(v, Inch::new(1));
}

#[test]
fn inch_neg() {
    let v = -Inch::new(2);
    assert_eq!(v, Inch::new(-2));
}

