use keyset::units::{
    ConvertFrom, ConvertInto, Dot, Inch, KeyUnit, Length, Mm, SUBDIVISIONS_PER_DOT,
    SUBDIVISIONS_PER_INCH, SUBDIVISIONS_PER_KEY_UNIT, SUBDIVISIONS_PER_MM,
};

#[test]
fn key_unit_is_close() {
    // Lengths are written as exact ratios: `KeyUnit(2.5)` is 25/10 of the unit, and
    // `X(X::PER_KEY_UNIT * 5.1 / 2.0)` is 51/20 of a KeyUnit written in the unit X.
    let own = |num: i64, den: u64| KeyUnit::from_ratio(num, den).unwrap();
    let this = own(25, 10);
    assert!(this.is_close(&own(50, 20)));
    assert!(!this.is_close(&own(51, 20)));
    let per = SUBDIVISIONS_PER_KEY_UNIT;
    let unit = SUBDIVISIONS_PER_DOT as u64;
    assert!(this.is_close(&Dot::from_ratio(per * 50, unit * 20).unwrap()));
    assert!(!this.is_close(&Dot::from_ratio(per * 51, unit * 20).unwrap()));
    let per = SUBDIVISIONS_PER_KEY_UNIT;
    let unit = SUBDIVISIONS_PER_MM as u64;
    assert!(this.is_close(&Mm::from_ratio(per * 50, unit * 20).unwrap()));
    assert!(!this.is_close(&Mm::from_ratio(per * 51, unit * 20).unwrap()));
    let per = SUBDIVISIONS_PER_KEY_UNIT;
    let unit = SUBDIVISIONS_PER_INCH as u64;
    assert!(this.is_close(&Inch::from_ratio(per * 50, unit * 20).unwrap()));
    assert!(!this.is_close(&Inch::from_ratio(per * 51, unit * 20).unwrap()));
}

#[test]
fn dots_close() {
    // Lengths are written as exact ratios: `Dot(2.5)` is 25/10 of the unit, and
    // `X(X::PER_DOT * 5.1 / 2.0)` is 51/20 of a Dot written in the unit X.
    let own = |num: i64, den: u64| Dot::from_ratio(num, den).unwrap();
    let this = own(25, 10);
    assert!(this.is_close(&own(50, 20)));
    assert!(!this.is_close(&own(51, 20)));
    let per = SUBDIVISIONS_PER_DOT;
    let unit = SUBDIVISIONS_PER_KEY_UNIT as u64;
    assert!(this.is_close(&KeyUnit::from_ratio(per * 50, unit * 20).unwrap()));
    assert!(!this.is_close(&KeyUnit::from_ratio(per * 51, unit * 20).unwrap()));
    let per = SUBDIVISIONS_PER_DOT;
    let unit = SUBDIVISIONS_PER_MM as u64;
    assert!(this.is_close(&Mm::from_ratio(per * 50, unit * 20).unwrap()));
    assert!(!this.is_close(&Mm::from_ratio(per * 51, unit * 20).unwrap()));
    let per = SUBDIVISIONS_PER_DOT;
    let unit = SUBDIVISIONS_PER_INCH as u64;
    assert!(this.is_close(&Inch::from_ratio(per * 50, unit * 20).unwrap()));
    assert!(!this.is_close(&Inch::from_ratio(per * 51, unit * 20).unwrap()));
}

#[test]
fn mm_is_close() {
    // Lengths are written as exact ratios: `Mm(2.5)` is 25/10 of the unit, and
    // `X(X::PER_MM * 5.1 / 2.0)` is 51/20 of a Mm written in the unit X.
    let own = |num: i64, den: u64| Mm::from_ratio(num, den).unwrap();
    let this = own(25, 10);
    assert!(this.is_close(&own(50, 20)));
    assert!(!this.is_close(&own(51, 20)));
    let per = SUBDIVISIONS_PER_MM;
    let unit = SUBDIVISIONS_PER_KEY_UNIT as u64;
    assert!(this.is_close(&KeyUnit::from_ratio(per * 50, unit * 20).unwrap()));
    assert!(!this.is_close(&KeyUnit::from_ratio(per * 51, unit * 20).unwrap()));
    let per = SUBDIVISIONS_PER_MM;
    let unit = SUBDIVISIONS_PER_DOT as u64;
    assert!(this.is_close(&Dot::from_ratio(per * 50, unit * 20).unwrap()));
    assert!(!this.is_close(&Dot::from_ratio(per * 51, unit * 20).unwrap()));
    let per = SUBDIVISIONS_PER_MM;
    let unit = SUBDIVISIONS_PER_INCH as u64;
    assert!(this.is_close(&Inch::from_ratio(per * 50, unit * 20).unwrap()));
    assert!(!this.is_close(&Inch::from_ratio(per * 51, unit * 20).unwrap()));
}

#[test]
fn inch_is_close() {
    // Lengths are written as exact ratios: `Inch(2.5)` is 25/10 of the unit, and
    // `X(X::PER_INCH * 5.1 / 2.0)` is 51/20 of a Inch written in the unit X.
    let own = |num: i64, den: u64| Inch::from_ratio(num, den).unwrap();
    let this = own(25, 10);
    assert!(this.is_close(&own(50, 20)));
    assert!(!this.is_close(&own(51, 20)));
    let per = SUBDIVISIONS_PER_INCH;
    let unit = SUBDIVISIONS_PER_KEY_UNIT as u64;
    assert!(this.is_close(&KeyUnit::from_ratio(per * 50, unit * 20).unwrap()));
    assert!(!this.is_close(&KeyUnit::from_ratio(per * 51, unit * 20).unwrap()));
    let per = SUBDIVISIONS_PER_INCH;
    let unit = SUBDIVISIONS_PER_DOT as u64;
    assert!(this.is_close(&Dot::from_ratio(per * 50, unit * 20).unwrap()));
    assert!(!this.is_close(&Dot::from_ratio(per * 51, unit * 20).unwrap()));
    let per = SUBDIVISIONS_PER_INCH;
    let unit = SUBDIVISIONS_PER_MM as u64;
    assert!(this.is_close(&Mm::from_ratio(per * 50, unit * 20).unwrap()));
    assert!(!this.is_close(&Mm::from_ratio(per * 51, unit * 20).unwrap()));
}

#[test]
fn unit_conversions_are_exact() {
    let half_key = KeyUnit::from_ratio(1, 2).unwrap();
    assert_eq!(Dot::convert_from(half_key), Dot::from_ratio(500, 1).unwrap());
    assert_eq!(Mm::convert_from(half_key), Mm::from_ratio(9525, 1000).unwrap());
    assert_eq!(Dot::convert_from(Mm::from_ratio(381, 10).unwrap()), Dot::new(2000));
    assert_eq!(Dot::convert_from(Inch::new(1)), Dot::from_ratio(4000, 3).unwrap());
    assert_eq!(Inch::convert_from(KeyUnit::from_ratio(4, 3).unwrap()), Inch::new(1));
    let dot: Dot = Inch::new(3).convert_into();
    assert_eq!(dot, Dot::new(4000));
    let back: Inch = dot.convert_into();
    assert_eq!(back, Inch::new(3));
}

#[test]
fn convert_into_matches_convert_from() {
    let half_key = KeyUnit::from_ratio(1, 2).unwrap();
    let dot: Dot = half_key.convert_into();
    assert_eq!(dot, Dot::convert_from(half_key));
    assert_eq!(dot, Dot::from_ratio(500, 1).unwrap());
    let mm = Mm::from_ratio(381, 10).unwrap();
    let key: KeyUnit = mm.convert_into();
    assert_eq!(key, KeyUnit::convert_from(mm));
    assert_eq!(key, KeyUnit::new(2));
}

#[test]
fn unit_ratio_edge_cases() {
    assert_eq!(KeyUnit::from_ratio(1, 0), None);
    assert_eq!(KeyUnit::from_ratio(-3, 2).unwrap(), KeyUnit::from_ratio(-15, 10).unwrap());
    assert_eq!(KeyUnit::from_ratio(-3, 2).unwrap().subdivisions(), -3 * SUBDIVISIONS_PER_KEY_UNIT / 2);
    assert_eq!(Dot::from_ratio(1, 7), None);
    assert_eq!(KeyUnit::from_ratio(i64::MAX, 1), None);
    assert_eq!(KeyUnit::zero().subdivisions(), 0);
    assert_eq!(KeyUnit::from_ratio(5, 72).unwrap().subdivisions(), 5 * SUBDIVISIONS_PER_KEY_UNIT / 72);
}

#[test]
fn unit_min_max() {
    let a = Mm::new(2);
    let b = Mm::new(-3);
    assert_eq!(a.min(b), b);
    assert_eq!(a.max(b), a);
    assert_eq!(Mm::zero().max(a), a);
    assert_eq!(Mm::unit_subdivisions(), SUBDIVISIONS_PER_MM);
}

#[test]
fn unit_is_close_tolerance() {
    // A millionth of the larger length plus a millionth of the unit
    let a = KeyUnit::from_subdivisions(1_000_000_000);
    let b = KeyUnit::from_subdivisions(1_000_000_000 + 2_143);
    assert!(a.is_close(&b));
    let c = KeyUnit::from_subdivisions(1_000_000_000 + 2_144);
    assert!(!a.is_close(&c));
    assert!(KeyUnit::zero().is_close(&Dot::from_subdivisions(1_143)));
    assert!(!KeyUnit::zero().is_close(&Dot::from_subdivisions(1_144)));
}
