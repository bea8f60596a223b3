//! The units of a keyboard drawing: the key unit, the drawing dot, the millimetre and the inch.
//!
//! A length is held exactly, as a whole number of subdivisions. One key unit is 19.05 mm,
//! 0.75 in and 1000 dots, and the subdivision is chosen so that each of the four units is a
//! whole number of subdivisions, as is a thousandth of each of them and a seventy-second of a
//! key unit. Converting between units therefore never rounds.

use vstd::prelude::*;

verus! {

/// Subdivisions in one key unit.
pub const SUBDIVISIONS_PER_KEY_UNIT: i64 = 1143000000;

/// Subdivisions in one dot (a thousandth of a key unit).
pub const SUBDIVISIONS_PER_DOT: i64 = 1143000;

/// Subdivisions in one millimetre (a key unit is 19.05 mm).
pub const SUBDIVISIONS_PER_MM: i64 = 60000000;

/// Subdivisions in one inch (a key unit is 0.75 in).
pub const SUBDIVISIONS_PER_INCH: i64 = 1524000000;

/// The magnitude of an integer.
pub open spec fn magnitude(x: int) -> int {
    if x < 0 {
        -x
    } else {
        x
    }
}

/// The length `num / den` of a unit `unit` subdivisions long, when that is a whole number of
/// subdivisions and `den` is positive.
pub open spec fn exact_subdivisions(num: int, den: int, unit: int) -> Option<int> {
    if den > 0 && (num * unit) % den == 0 {
        Some((num * unit) / den)
    } else {
        None
    }
}

/// Whether two lengths `a` and `b`, in subdivisions, are close when measured in a unit `unit`
/// subdivisions long: they differ by at most a millionth of the larger magnitude plus a
/// millionth of the unit.
pub open spec fn close(a: int, b: int, unit: int) -> bool {
    1000000 * magnitude(a - b) <= (if magnitude(a) < magnitude(b) {
        magnitude(b)
    } else {
        magnitude(a)
    }) + unit
}

/// A length in one of the units.
pub trait Length: Sized {
    /// This length as a whole number of subdivisions.
    spec fn subdivision_count(&self) -> int;

    /// The number of subdivisions in one of this unit.
    spec fn unit_size() -> int;

    /// This length as a whole number of subdivisions.
    fn subdivisions(&self) -> (n: i64)
        ensures
            n == self.subdivision_count(),
    ;

    /// The number of subdivisions in one of this unit.
    fn unit_subdivisions() -> (n: i64)
        ensures
            n == Self::unit_size(),
            n > 0,
    ;

    /// The length of the given number of subdivisions.
    fn from_subdivisions(n: i64) -> (l: Self)
        ensures
            l.subdivision_count() == n,
    ;
}

/// Convenience trait for converting units
pub trait ConvertFrom<U>: Sized {
    /// Whether `result` is `value` expressed in this type.
    spec fn is_conversion(value: U, result: Self) -> bool;

    /// A value has one conversion: two results that are both conversions of it are the same.
    proof fn lemma_conversion_unique(value: U, a: Self, b: Self)
        requires
            Self::is_conversion(value, a),
            Self::is_conversion(value, b),
        ensures
            a == b,
    ;

    /// Perform the conversion
    fn convert_from(value: U) -> (r: Self)
        ensures
            Self::is_conversion(value, r),
    ;
}

/// Convenience trait for converting units
///
/// This should not be implemented directly, implement [`ConvertFrom`] instead
pub trait ConvertInto<U>: Sized {
    /// Whether `result` is this value expressed in the target type.
    spec fn is_conversion_into(self, result: U) -> bool;

    /// Perform the conversion
    fn convert_into(self) -> (r: U)
        ensures
            self.is_conversion_into(r),
    ;
}

impl<U, V: ConvertFrom<U>> ConvertInto<V> for U {
    /// Converting into `V` is `V`'s conversion from this type.
    open spec fn is_conversion_into(self, result: V) -> bool {
        V::is_conversion(self, result)
    }

    fn convert_into(self) -> (r: V) {
        V::convert_from(self)
    }
}

/// Converting a value into another type gives the same value as that type's conversion from
/// the value's type: whatever `x.convert_into()` and `V::convert_from(x)` return are equal.
pub proof fn law_convert_into_is_convert_from<U, V: ConvertFrom<U>>(x: U, into: V, from: V)
    requires
        x.is_conversion_into(into),
        V::is_conversion(x, from),
    ensures
        into == from,
{
    V::lemma_conversion_unique(x, into, from);
}

/// `x % d == 0` holds of `-x` exactly when it holds of `x`, and the quotients then differ in
/// sign only.
proof fn lemma_negated_multiple(x: int, d: int)
    requires
        d > 0,
    ensures
        (x % d == 0) <==> ((-x) % d == 0),
        x % d == 0 ==> (-x) / d == -(x / d),
{
    vstd::arithmetic::div_mod::lemma_fundamental_div_mod(x, d);
    vstd::arithmetic::div_mod::lemma_fundamental_div_mod(-x, d);
    if x % d == 0 {
        vstd::arithmetic::div_mod::lemma_div_multiples_vanish(-(x / d), d);
        assert(-x == d * (-(x / d))) by (nonlinear_arith)
            requires
                x == d * (x / d),
        ;
    }
    if (-x) % d == 0 {
        vstd::arithmetic::div_mod::lemma_div_multiples_vanish(-((-x) / d), d);
        assert(x == d * (-((-x) / d))) by (nonlinear_arith)
            requires
                -x == d * ((-x) / d),
        ;
        vstd::arithmetic::div_mod::lemma_fundamental_div_mod(x, d);
    }
}

/// The length `num / den` of a unit `unit` subdivisions long, in subdivisions, when it is
/// exact and its magnitude fits in an `i64`.
fn ratio_subdivisions(num: i64, den: u64, unit: i64) -> (r: Option<i64>)
    requires
        0 < unit <= SUBDIVISIONS_PER_INCH,
    ensures
        match exact_subdivisions(num as int, den as int, unit as int) {
            Some(s) => if magnitude(s) <= i64::MAX {
                r == Some(s as i64)
            } else {
                r is None
            },
            None => r is None,
        },
{
    if den == 0 {
        return None;
    }
    let negative = num < 0;
    let a: u128 = if negative {
        (-(num as i128)) as u128
    } else {
        num as u128
    };
    assert(a <= 0x8000_0000_0000_0000u128);
    assert(a * unit <= 0x8000_0000_0000_0000u128 * 1524000000) by (nonlinear_arith)
        requires
            a <= 0x8000_0000_0000_0000u128,
            0 < unit <= 1524000000,
    ;
    let p: u128 = a * (unit as u128);
    let d: u128 = den as u128;
    let ghost exact: int = num * unit;
    proof {
        if negative {
            assert(p == -exact) by (nonlinear_arith)
                requires
                    a == -num,
                    p == a * unit,
                    exact == num * unit,
            ;
            lemma_negated_multiple(exact, d as int);
        } else {
            assert(p == exact);
        }
    }
    if p % d != 0 {
        return None;
    }
    let q: u128 = p / d;
    if q > 0x7fff_ffff_ffff_ffffu128 {
        return None;
    }
    let s: i64 = if negative {
        -(q as i64)
    } else {
        q as i64
    };
    Some(s)
}

/// Whether two lengths in subdivisions are close when measured in a unit `unit` subdivisions
/// long (see `close`).
fn subdivisions_close(a: i64, b: i64, unit: i64) -> (r: bool)
    requires
        0 < unit <= SUBDIVISIONS_PER_INCH,
    ensures
        r == close(a as int, b as int, unit as int),
{
    let a: i128 = a as i128;
    let b: i128 = b as i128;
    let diff: i128 = if a < b {
        b - a
    } else {
        a - b
    };
    let ma: i128 = if a < 0 {
        -a
    } else {
        a
    };
    let mb: i128 = if b < 0 {
        -b
    } else {
        b
    };
    let larger: i128 = if ma < mb {
        mb
    } else {
        ma
    };
    1000000 * diff <= larger + unit as i128
}

/// A length written as `num / den` of one unit is the same length when written as the same
/// ratio in another unit: `num / den` of a unit `from_unit` subdivisions long is
/// `(num * from_unit) / (den * to_unit)` of a unit `to_unit` subdivisions long, and one of the two
/// is exact exactly when the other is.
pub proof fn law_ratio_in_other_unit(num: int, den: int, from_unit: int, to_unit: int)
    requires
        den > 0,
        from_unit > 0,
        to_unit > 0,
    ensures
        exact_subdivisions(num * from_unit * to_unit, den * to_unit, 1) == exact_subdivisions(
            num,
            den,
            from_unit,
        ),
{
    let x = num * from_unit;
    vstd::arithmetic::div_mod::lemma_fundamental_div_mod(x, den);
    let q = x / den;
    let r = x % den;
    assert(x * to_unit == q * (den * to_unit) + r * to_unit && 0 <= r * to_unit < den * to_unit)
        by (nonlinear_arith)
        requires
            x == den * q + r,
            0 <= r < den,
            to_unit > 0,
    ;
    assert(den * to_unit > 0) by (nonlinear_arith)
        requires
            den > 0,
            to_unit > 0,
    ;
    vstd::arithmetic::div_mod::lemma_fundamental_div_mod_converse(
        x * to_unit,
        den * to_unit,
        q,
        r * to_unit,
    );
    assert(num * from_unit * to_unit * 1 == x * to_unit);
    assert((r * to_unit == 0) <==> (r == 0)) by (nonlinear_arith)
        requires
            to_unit > 0,
            r >= 0,
    ;
}

/// Every length is close to itself, in every unit.
pub proof fn law_close_reflexive(a: int, unit: int)
    requires
        unit > 0,
    ensures
        close(a, a, unit),
{
}

/// Closeness does not depend on the order of the two lengths.
pub proof fn law_close_symmetric(a: int, b: int, unit: int)
    ensures
        close(a, b, unit) == close(b, a, unit),
{
}

/// Converting a length in KeyUnit to any unit and back gives the same length.
pub proof fn law_key_unit_round_trip<U: Length>(start: KeyUnit, through: U, back: KeyUnit)
    requires
        through.subdivision_count() == start.subdivision_count(),
        back.subdivision_count() == through.subdivision_count(),
    ensures
        back == start,
{
}

/// Converting a length in Dot to any unit and back gives the same length.
pub proof fn law_dot_round_trip<U: Length>(start: Dot, through: U, back: Dot)
    requires
        through.subdivision_count() == start.subdivision_count(),
        back.subdivision_count() == through.subdivision_count(),
    ensures
        back == start,
{
}

/// Converting a length in Mm to any unit and back gives the same length.
pub proof fn law_mm_round_trip<U: Length>(start: Mm, through: U, back: Mm)
    requires
        through.subdivision_count() == start.subdivision_count(),
        back.subdivision_count() == through.subdivision_count(),
    ensures
        back == start,
{
}

/// Converting a length in Inch to any unit and back gives the same length.
pub proof fn law_inch_round_trip<U: Length>(start: Inch, through: U, back: Inch)
    requires
        through.subdivision_count() == start.subdivision_count(),
        back.subdivision_count() == through.subdivision_count(),
    ensures
        back == start,
{
}

/// Keyboard Unit, usually 19.05 mm or 0.75 in
#[derive(Debug, Clone, Copy, PartialEq, Eq, Structural)]
pub struct KeyUnit {
    /// The length as a whole number of subdivisions
    pub subdivisions: i64,
}

/// Dot, a.k.a. drawing unit
#[derive(Debug, Clone, Copy, PartialEq, Eq, Structural)]
pub struct Dot {
    /// The length as a whole number of subdivisions
    pub subdivisions: i64,
}

/// Millimeter
#[derive(Debug, Clone, Copy, PartialEq, Eq, Structural)]
pub struct Mm {
    /// The length as a whole number of subdivisions
    pub subdivisions: i64,
}

/// Inch
#[derive(Debug, Clone, Copy, PartialEq, Eq, Structural)]
pub struct Inch {
    /// The length as a whole number of subdivisions
    pub subdivisions: i64,
}

impl Length for KeyUnit {
    open spec fn subdivision_count(&self) -> int {
        self.subdivisions as int
    }

    open spec fn unit_size() -> int {
        SUBDIVISIONS_PER_KEY_UNIT as int
    }

    fn subdivisions(&self) -> (n: i64) {
        self.subdivisions
    }

    fn unit_subdivisions() -> (n: i64) {
        SUBDIVISIONS_PER_KEY_UNIT
    }

    fn from_subdivisions(n: i64) -> (l: Self) {
        KeyUnit { subdivisions: n }
    }
}

impl Length for Dot {
    open spec fn subdivision_count(&self) -> int {
        self.subdivisions as int
    }

    open spec fn unit_size() -> int {
        SUBDIVISIONS_PER_DOT as int
    }

    fn subdivisions(&self) -> (n: i64) {
        self.subdivisions
    }

    fn unit_subdivisions() -> (n: i64) {
        SUBDIVISIONS_PER_DOT
    }

    fn from_subdivisions(n: i64) -> (l: Self) {
        Dot { subdivisions: n }
    }
}

impl Length for Mm {
    open spec fn subdivision_count(&self) -> int {
        self.subdivisions as int
    }

    open spec fn unit_size() -> int {
        SUBDIVISIONS_PER_MM as int
    }

    fn subdivisions(&self) -> (n: i64) {
        self.subdivisions
    }

    fn unit_subdivisions() -> (n: i64) {
        SUBDIVISIONS_PER_MM
    }

    fn from_subdivisions(n: i64) -> (l: Self) {
        Mm { subdivisions: n }
    }
}

impl Length for Inch {
    open spec fn subdivision_count(&self) -> int {
        self.subdivisions as int
    }

    open spec fn unit_size() -> int {
        SUBDIVISIONS_PER_INCH as int
    }

    fn subdivisions(&self) -> (n: i64) {
        self.subdivisions
    }

    fn unit_subdivisions() -> (n: i64) {
        SUBDIVISIONS_PER_INCH
    }

    fn from_subdivisions(n: i64) -> (l: Self) {
        Inch { subdivisions: n }
    }
}

impl KeyUnit {
    /// The length `num / den` of this unit, when it is a whole number of subdivisions whose
    /// magnitude fits in an `i64`; `None` otherwise (and when `den` is zero).
    pub fn from_ratio(num: i64, den: u64) -> (r: Option<Self>)
        ensures
            match exact_subdivisions(num as int, den as int, SUBDIVISIONS_PER_KEY_UNIT as int) {
                Some(s) => if magnitude(s) <= i64::MAX {
                    r matches Some(l) && l.subdivision_count() == s
                } else {
                    r is None
                },
                None => r is None,
            },
    {
        match ratio_subdivisions(num, den, SUBDIVISIONS_PER_KEY_UNIT) {
            Some(s) => Some(KeyUnit { subdivisions: s }),
            None => None,
        }
    }

    /// A whole number of this unit.
    pub fn new(value: i32) -> (l: Self)
        ensures
            l.subdivision_count() == value * SUBDIVISIONS_PER_KEY_UNIT,
    {
        KeyUnit { subdivisions: value as i64 * SUBDIVISIONS_PER_KEY_UNIT }
    }

    /// Return a zero value
    pub fn zero() -> (l: Self)
        ensures
            l.subdivision_count() == 0,
    {
        KeyUnit { subdivisions: 0 }
    }

    /// Return the minimum of two units
    pub fn min(self, rhs: Self) -> (l: Self)
        ensures
            l.subdivision_count() == if self.subdivision_count() <= rhs.subdivision_count() {
                self.subdivision_count()
            } else {
                rhs.subdivision_count()
            },
    {
        if self.subdivisions <= rhs.subdivisions {
            self
        } else {
            rhs
        }
    }

    /// Return the maximum of two units
    pub fn max(self, rhs: Self) -> (l: Self)
        ensures
            l.subdivision_count() == if self.subdivision_count() >= rhs.subdivision_count() {
                self.subdivision_count()
            } else {
                rhs.subdivision_count()
            },
    {
        if self.subdivisions >= rhs.subdivisions {
            self
        } else {
            rhs
        }
    }

    /// Whether `other`, in any unit, is close to this length when both are measured in this
    /// unit (see `close`).
    pub fn is_close<U: Length>(&self, other: &U) -> (r: bool)
        ensures
            r == close(self.subdivision_count(), other.subdivision_count(), SUBDIVISIONS_PER_KEY_UNIT as int),
    {
        subdivisions_close(self.subdivisions, other.subdivisions(), SUBDIVISIONS_PER_KEY_UNIT)
    }
}

impl<U: Length> ConvertFrom<U> for KeyUnit {
    /// A conversion keeps the length: the number of subdivisions is the same.
    open spec fn is_conversion(value: U, result: Self) -> bool {
        result.subdivision_count() == value.subdivision_count()
    }

    proof fn lemma_conversion_unique(value: U, a: Self, b: Self) {
    }

    fn convert_from(value: U) -> (l: Self)
        ensures
            l.subdivision_count() == value.subdivision_count(),
    {
        KeyUnit { subdivisions: value.subdivisions() }
    }
}

impl Dot {
    /// The length `num / den` of this unit, when it is a whole number of subdivisions whose
    /// magnitude fits in an `i64`; `None` otherwise (and when `den` is zero).
    pub fn from_ratio(num: i64, den: u64) -> (r: Option<Self>)
        ensures
            match exact_subdivisions(num as int, den as int, SUBDIVISIONS_PER_DOT as int) {
                Some(s) => if magnitude(s) <= i64::MAX {
                    r matches Some(l) && l.subdivision_count() == s
                } else {
                    r is None
                },
                None => r is None,
            },
    {
        match ratio_subdivisions(num, den, SUBDIVISIONS_PER_DOT) {
            Some(s) => Some(Dot { subdivisions: s }),
            None => None,
        }
    }

    /// A whole number of this unit.
    pub fn new(value: i32) -> (l: Self)
        ensures
            l.subdivision_count() == value * SUBDIVISIONS_PER_DOT,
    {
        Dot { subdivisions: value as i64 * SUBDIVISIONS_PER_DOT }
    }

    /// Return a zero value
    pub fn zero() -> (l: Self)
        ensures
            l.subdivision_count() == 0,
    {
        Dot { subdivisions: 0 }
    }

    /// Return the minimum of two units
    pub fn min(self, rhs: Self) -> (l: Self)
        ensures
            l.subdivision_count() == if self.subdivision_count() <= rhs.subdivision_count() {
                self.subdivision_count()
            } else {
                rhs.subdivision_count()
            },
    {
        if self.subdivisions <= rhs.subdivisions {
            self
        } else {
            rhs
        }
    }

    /// Return the maximum of two units
    pub fn max(self, rhs: Self) -> (l: Self)
        ensures
            l.subdivision_count() == if self.subdivision_count() >= rhs.subdivision_count() {
                self.subdivision_count()
            } else {
                rhs.subdivision_count()
            },
    {
        if self.subdivisions >= rhs.subdivisions {
            self
        } else {
            rhs
        }
    }

    /// Whether `other`, in any unit, is close to this length when both are measured in this
    /// unit (see `close`).
    pub fn is_close<U: Length>(&self, other: &U) -> (r: bool)
        ensures
            r == close(self.subdivision_count(), other.subdivision_count(), SUBDIVISIONS_PER_DOT as int),
    {
        subdivisions_close(self.subdivisions, other.subdivisions(), SUBDIVISIONS_PER_DOT)
    }
}

impl<U: Length> ConvertFrom<U> for Dot {
    /// A conversion keeps the length: the number of subdivisions is the same.
    open spec fn is_conversion(value: U, result: Self) -> bool {
        result.subdivision_count() == value.subdivision_count()
    }

    proof fn lemma_conversion_unique(value: U, a: Self, b: Self) {
    }

    fn convert_from(value: U) -> (l: Self)
        ensures
            l.subdivision_count() == value.subdivision_count(),
    {
        Dot { subdivisions: value.subdivisions() }
    }
}

impl Mm {
    /// The length `num / den` of this unit, when it is a whole number of subdivisions whose
    /// magnitude fits in an `i64`; `None` otherwise (and when `den` is zero).
    pub fn from_ratio(num: i64, den: u64) -> (r: Option<Self>)
        ensures
            match exact_subdivisions(num as int, den as int, SUBDIVISIONS_PER_MM as int) {
                Some(s) => if magnitude(s) <= i64::MAX {
                    r matches Some(l) && l.subdivision_count() == s
                } else {
                    r is None
                },
                None => r is None,
            },
    {
        match ratio_subdivisions(num, den, SUBDIVISIONS_PER_MM) {
            Some(s) => Some(Mm { subdivisions: s }),
            None => None,
        }
    }

    /// A whole number of this unit.
    pub fn new(value: i32) -> (l: Self)
        ensures
            l.subdivision_count() == value * SUBDIVISIONS_PER_MM,
    {
        Mm { subdivisions: value as i64 * SUBDIVISIONS_PER_MM }
    }

    /// Return a zero value
    pub fn zero() -> (l: Self)
        ensures
            l.subdivision_count() == 0,
    {
        Mm { subdivisions: 0 }
    }

    /// Return the minimum of two units
    pub fn min(self, rhs: Self) -> (l: Self)
        ensures
            l.subdivision_count() == if self.subdivision_count() <= rhs.subdivision_count() {
                self.subdivision_count()
            } else {
                rhs.subdivision_count()
            },
    {
        if self.subdivisions <= rhs.subdivisions {
            self
        } else {
            rhs
        }
    }

    /// Return the maximum of two units
    pub fn max(self, rhs: Self) -> (l: Self)
        ensures
            l.subdivision_count() == if self.subdivision_count() >= rhs.subdivision_count() {
                self.subdivision_count()
            } else {
                rhs.subdivision_count()
            },
    {
        if self.subdivisions >= rhs.subdivisions {
            self
        } else {
            rhs
        }
    }

    /// Whether `other`, in any unit, is close to this length when both are measured in this
    /// unit (see `close`).
    pub fn is_close<U: Length>(&self, other: &U) -> (r: bool)
        ensures
            r == close(self.subdivision_count(), other.subdivision_count(), SUBDIVISIONS_PER_MM as int),
    {
        subdivisions_close(self.subdivisions, other.subdivisions(), SUBDIVISIONS_PER_MM)
    }
}

impl<U: Length> ConvertFrom<U> for Mm {
    /// A conversion keeps the length: the number of subdivisions is the same.
    open spec fn is_conversion(value: U, result: Self) -> bool {
        result.subdivision_count() == value.subdivision_count()
    }

    proof fn lemma_conversion_unique(value: U, a: Self, b: Self) {
    }

    fn convert_from(value: U) -> (l: Self)
        ensures
            l.subdivision_count() == value.subdivision_count(),
    {
        Mm { subdivisions: value.subdivisions() }
    }
}

impl Inch {
    /// The length `num / den` of this unit, when it is a whole number of subdivisions whose
    /// magnitude fits in an `i64`; `None` otherwise (and when `den` is zero).
    pub fn from_ratio(num: i64, den: u64) -> (r: Option<Self>)
        ensures
            match exact_subdivisions(num as int, den as int, SUBDIVISIONS_PER_INCH as int) {
                Some(s) => if magnitude(s) <= i64::MAX {
                    r matches Some(l) && l.subdivision_count() == s
                } else {
                    r is None
                },
                None => r is None,
            },
    {
        match ratio_subdivisions(num, den, SUBDIVISIONS_PER_INCH) {
            Some(s) => Some(Inch { subdivisions: s }),
            None => None,
        }
    }

    /// A whole number of this unit.
    pub fn new(value: i32) -> (l: Self)
        ensures
            l.subdivision_count() == value * SUBDIVISIONS_PER_INCH,
    {
        Inch { subdivisions: value as i64 * SUBDIVISIONS_PER_INCH }
    }

    /// Return a zero value
    pub fn zero() -> (l: Self)
        ensures
            l.subdivision_count() == 0,
    {
        Inch { subdivisions: 0 }
    }

    /// Return the minimum of two units
    pub fn min(self, rhs: Self) -> (l: Self)
        ensures
            l.subdivision_count() == if self.subdivision_count() <= rhs.subdivision_count() {
                self.subdivision_count()
            } else {
                rhs.subdivision_count()
            },
    {
        if self.subdivisions <= rhs.subdivisions {
            self
        } else {
            rhs
        }
    }

    /// Return the maximum of two units
    pub fn max(self, rhs: Self) -> (l: Self)
        ensures
            l.subdivision_count() == if self.subdivision_count() >= rhs.subdivision_count() {
                self.subdivision_count()
            } else {
                rhs.subdivision_count()
            },
    {
        if self.subdivisions >= rhs.subdivisions {
            self
        } else {
            rhs
        }
    }

    /// Whether `other`, in any unit, is close to this length when both are measured in this
    /// unit (see `close`).
    pub fn is_close<U: Length>(&self, other: &U) -> (r: bool)
        ensures
            r == close(self.subdivision_count(), other.subdivision_count(), SUBDIVISIONS_PER_INCH as int),
    {
        subdivisions_close(self.subdivisions, other.subdivisions(), SUBDIVISIONS_PER_INCH)
    }
}

impl<U: Length> ConvertFrom<U> for Inch {
    /// A conversion keeps the length: the number of subdivisions is the same.
    open spec fn is_conversion(value: U, result: Self) -> bool {
        result.subdivision_count() == value.subdivision_count()
    }

    proof fn lemma_conversion_unique(value: U, a: Self, b: Self) {
    }

    fn convert_from(value: U) -> (l: Self)
        ensures
            l.subdivision_count() == value.subdivision_count(),
    {
        Inch { subdivisions: value.subdivisions() }
    }
}

impl KeyUnit {
    /// The sum of two lengths.
    pub fn plus(self, rhs: Self) -> (l: Self)
        requires
            i64::MIN <= self.subdivision_count() + rhs.subdivision_count() <= i64::MAX,
        ensures
            l.subdivision_count() == self.subdivision_count() + rhs.subdivision_count(),
    {
        KeyUnit { subdivisions: self.subdivisions + rhs.subdivisions }
    }

    /// The difference of two lengths.
    pub fn minus(self, rhs: Self) -> (l: Self)
        requires
            i64::MIN <= self.subdivision_count() - rhs.subdivision_count() <= i64::MAX,
        ensures
            l.subdivision_count() == self.subdivision_count() - rhs.subdivision_count(),
    {
        KeyUnit { subdivisions: self.subdivisions - rhs.subdivisions }
    }

    /// This length `factor` times over.
    pub fn times(self, factor: i64) -> (l: Self)
        requires
            i64::MIN <= self.subdivision_count() * factor <= i64::MAX,
        ensures
            l.subdivision_count() == self.subdivision_count() * factor,
    {
        KeyUnit { subdivisions: self.subdivisions * factor }
    }

    /// Half of this length, rounded down to a whole number of subdivisions.
    pub fn half(self) -> (l: Self)
        ensures
            l.subdivision_count() == self.subdivision_count() / 2,
    {
        let s = self.subdivisions;
        let h: i64 = if s >= 0 {
            s / 2
        } else {
            -((-(s as i128) + 1) / 2) as i64
        };
        proof {
            if s < 0 {
                assert(h == (s as int) / 2) by (nonlinear_arith)
                    requires
                        s < 0,
                        h == -((-(s as int) + 1) / 2),
                ;
            }
        }
        KeyUnit { subdivisions: h }
    }
}

impl Dot {
    /// The sum of two lengths.
    pub fn plus(self, rhs: Self) -> (l: Self)
        requires
            i64::MIN <= self.subdivision_count() + rhs.subdivision_count() <= i64::MAX,
        ensures
            l.subdivision_count() == self.subdivision_count() + rhs.subdivision_count(),
    {
        Dot { subdivisions: self.subdivisions + rhs.subdivisions }
    }

    /// The difference of two lengths.
    pub fn minus(self, rhs: Self) -> (l: Self)
        requires
            i64::MIN <= self.subdivision_count() - rhs.subdivision_count() <= i64::MAX,
        ensures
            l.subdivision_count() == self.subdivision_count() - rhs.subdivision_count(),
    {
        Dot { subdivisions: self.subdivisions - rhs.subdivisions }
    }

    /// This length `factor` times over.
    pub fn times(self, factor: i64) -> (l: Self)
        requires
            i64::MIN <= self.subdivision_count() * factor <= i64::MAX,
        ensures
            l.subdivision_count() == self.subdivision_count() * factor,
    {
        Dot { subdivisions: self.subdivisions * factor }
    }

    /// Half of this length, rounded down to a whole number of subdivisions.
    pub fn half(self) -> (l: Self)
        ensures
            l.subdivision_count() == self.subdivision_count() / 2,
    {
        let s = self.subdivisions;
        let h: i64 = if s >= 0 {
            s / 2
        } else {
            -((-(s as i128) + 1) / 2) as i64
        };
        proof {
            if s < 0 {
                assert(h == (s as int) / 2) by (nonlinear_arith)
                    requires
                        s < 0,
                        h == -((-(s as int) + 1) / 2),
                ;
            }
        }
        Dot { subdivisions: h }
    }
}

impl Mm {
    /// The sum of two lengths.
    pub fn plus(self, rhs: Self) -> (l: Self)
        requires
            i64::MIN <= self.subdivision_count() + rhs.subdivision_count() <= i64::MAX,
        ensures
            l.subdivision_count() == self.subdivision_count() + rhs.subdivision_count(),
    {
        Mm { subdivisions: self.subdivisions + rhs.subdivisions }
    }

    /// The difference of two lengths.
    pub fn minus(self, rhs: Self) -> (l: Self)
        requires
            i64::MIN <= self.subdivision_count() - rhs.subdivision_count() <= i64::MAX,
        ensures
            l.subdivision_count() == self.subdivision_count() - rhs.subdivision_count(),
    {
        Mm { subdivisions: self.subdivisions - rhs.subdivisions }
    }

    /// This length `factor` times over.
    pub fn times(self, factor: i64) -> (l: Self)
        requires
            i64::MIN <= self.subdivision_count() * factor <= i64::MAX,
        ensures
            l.subdivision_count() == self.subdivision_count() * factor,
    {
        Mm { subdivisions: self.subdivisions * factor }
    }

    /// Half of this length, rounded down to a whole number of subdivisions.
    pub fn half(self) -> (l: Self)
        ensures
            l.subdivision_count() == self.subdivision_count() / 2,
    {
        let s = self.subdivisions;
        let h: i64 = if s >= 0 {
            s / 2
        } else {
            -((-(s as i128) + 1) / 2) as i64
        };
        proof {
            if s < 0 {
                assert(h == (s as int) / 2) by (nonlinear_arith)
                    requires
                        s < 0,
                        h == -((-(s as int) + 1) / 2),
                ;
            }
        }
        Mm { subdivisions: h }
    }
}

impl Inch {
    /// The sum of two lengths.
    pub fn plus(self, rhs: Self) -> (l: Self)
        requires
            i64::MIN <= self.subdivision_count() + rhs.subdivision_count() <= i64::MAX,
        ensures
            l.subdivision_count() == self.subdivision_count() + rhs.subdivision_count(),
    {
        Inch { subdivisions: self.subdivisions + rhs.subdivisions }
    }

    /// The difference of two lengths.
    pub fn minus(self, rhs: Self) -> (l: Self)
        requires
            i64::MIN <= self.subdivision_count() - rhs.subdivision_count() <= i64::MAX,
        ensures
            l.subdivision_count() == self.subdivision_count() - rhs.subdivision_count(),
    {
        Inch { subdivisions: self.subdivisions - rhs.subdivisions }
    }

    /// This length `factor` times over.
    pub fn times(self, factor: i64) -> (l: Self)
        requires
            i64::MIN <= self.subdivision_count() * factor <= i64::MAX,
        ensures
            l.subdivision_count() == self.subdivision_count() * factor,
    {
        Inch { subdivisions: self.subdivisions * factor }
    }

    /// Half of this length, rounded down to a whole number of subdivisions.
    pub fn half(self) -> (l: Self)
        ensures
            l.subdivision_count() == self.subdivision_count() / 2,
    {
        let s = self.subdivisions;
        let h: i64 = if s >= 0 {
            s / 2
        } else {
            -((-(s as i128) + 1) / 2) as i64
        };
        proof {
            if s < 0 {
                assert(h == (s as int) / 2) by (nonlinear_arith)
                    requires
                        s < 0,
                        h == -((-(s as int) + 1) / 2),
                ;
            }
        }
        Inch { subdivisions: h }
    }
}

impl core::ops::Add for KeyUnit {
    type Output = Self;

    fn add(self, rhs: Self) -> (l: Self) {
        self.plus(rhs)
    }
}

impl vstd::std_specs::ops::AddSpecImpl for KeyUnit {
    open spec fn obeys_add_spec() -> bool {
        true
    }

    open spec fn add_req(self, rhs: Self) -> bool {
        i64::MIN <= self.subdivisions + rhs.subdivisions <= i64::MAX
    }

    open spec fn add_spec(self, rhs: Self) -> Self {
        KeyUnit { subdivisions: (self.subdivisions + rhs.subdivisions) as i64 }
    }
}

impl core::ops::Sub for KeyUnit {
    type Output = Self;

    fn sub(self, rhs: Self) -> (l: Self) {
        self.minus(rhs)
    }
}

impl vstd::std_specs::ops::SubSpecImpl for KeyUnit {
    open spec fn obeys_sub_spec() -> bool {
        true
    }

    open spec fn sub_req(self, rhs: Self) -> bool {
        i64::MIN <= self.subdivisions - rhs.subdivisions <= i64::MAX
    }

    open spec fn sub_spec(self, rhs: Self) -> Self {
        KeyUnit { subdivisions: (self.subdivisions - rhs.subdivisions) as i64 }
    }
}

impl core::ops::Neg for KeyUnit {
    type Output = Self;

    fn neg(self) -> (l: Self) {
        KeyUnit { subdivisions: -self.subdivisions }
    }
}

impl vstd::std_specs::ops::NegSpecImpl for KeyUnit {
    open spec fn obeys_neg_spec() -> bool {
        true
    }

    open spec fn neg_req(self) -> bool {
        self.subdivisions != i64::MIN
    }

    open spec fn neg_spec(self) -> Self {
        KeyUnit { subdivisions: (-self.subdivisions) as i64 }
    }
}

impl KeyUnit {
    /// Return the absolute value of the unit
    pub fn abs(self) -> (l: Self)
        requires
            self.subdivisions != i64::MIN,
        ensures
            l.subdivisions == magnitude(self.subdivisions as int),
    {
        if self.subdivisions < 0 {
            KeyUnit { subdivisions: -self.subdivisions }
        } else {
            self
        }
    }
}

impl core::ops::Add for Dot {
    type Output = Self;

    fn add(self, rhs: Self) -> (l: Self) {
        self.plus(rhs)
    }
}

impl vstd::std_specs::ops::AddSpecImpl for Dot {
    open spec fn obeys_add_spec() -> bool {
        true
    }

    open spec fn add_req(self, rhs: Self) -> bool {
        i64::MIN <= self.subdivisions + rhs.subdivisions <= i64::MAX
    }

    open spec fn add_spec(self, rhs: Self) -> Self {
        Dot { subdivisions: (self.subdivisions + rhs.subdivisions) as i64 }
    }
}

impl core::ops::Sub for Dot {
    type Output = Self;

    fn sub(self, rhs: Self) -> (l: Self) {
        self.minus(rhs)
    }
}

impl vstd::std_specs::ops::SubSpecImpl for Dot {
    open spec fn obeys_sub_spec() -> bool {
        true
    }

    open spec fn sub_req(self, rhs: Self) -> bool {
        i64::MIN <= self.subdivisions - rhs.subdivisions <= i64::MAX
    }

    open spec fn sub_spec(self, rhs: Self) -> Self {
        Dot { subdivisions: (self.subdivisions - rhs.subdivisions) as i64 }
    }
}

impl core::ops::Neg for Dot {
    type Output = Self;

    fn neg(self) -> (l: Self) {
        Dot { subdivisions: -self.subdivisions }
    }
}

impl vstd::std_specs::ops::NegSpecImpl for Dot {
    open spec fn obeys_neg_spec() -> bool {
        true
    }

    open spec fn neg_req(self) -> bool {
        self.subdivisions != i64::MIN
    }

    open spec fn neg_spec(self) -> Self {
        Dot { subdivisions: (-self.subdivisions) as i64 }
    }
}

impl Dot {
    /// Return the absolute value of the unit
    pub fn abs(self) -> (l: Self)
        requires
            self.subdivisions != i64::MIN,
        ensures
            l.subdivisions == magnitude(self.subdivisions as int),
    {
        if self.subdivisions < 0 {
            Dot { subdivisions: -self.subdivisions }
        } else {
            self
        }
    }
}

impl core::ops::Add for Mm {
    type Output = Self;

    fn add(self, rhs: Self) -> (l: Self) {
        self.plus(rhs)
    }
}

impl vstd::std_specs::ops::AddSpecImpl for Mm {
    open spec fn obeys_add_spec() -> bool {
        true
    }

    open spec fn add_req(self, rhs: Self) -> bool {
        i64::MIN <= self.subdivisions + rhs.subdivisions <= i64::MAX
    }

    open spec fn add_spec(self, rhs: Self) -> Self {
        Mm { subdivisions: (self.subdivisions + rhs.subdivisions) as i64 }
    }
}

impl core::ops::Sub for Mm {
    type Output = Self;

    fn sub(self, rhs: Self) -> (l: Self) {
        self.minus(rhs)
    }
}

impl vstd::std_specs::ops::SubSpecImpl for Mm {
    open spec fn obeys_sub_spec() -> bool {
        true
    }

    open spec fn sub_req(self, rhs: Self) -> bool {
        i64::MIN <= self.subdivisions - rhs.subdivisions <= i64::MAX
    }

    open spec fn sub_spec(self, rhs: Self) -> Self {
        Mm { subdivisions: (self.subdivisions - rhs.subdivisions) as i64 }
    }
}

impl core::ops::Neg for Mm {
    type Output = Self;

    fn neg(self) -> (l: Self) {
        Mm { subdivisions: -self.subdivisions }
    }
}

impl vstd::std_specs::ops::NegSpecImpl for Mm {
    open spec fn obeys_neg_spec() -> bool {
        true
    }

    open spec fn neg_req(self) -> bool {
        self.subdivisions != i64::MIN
    }

    open spec fn neg_spec(self) -> Self {
        Mm { subdivisions: (-self.subdivisions) as i64 }
    }
}

impl Mm {
    /// Return the absolute value of the unit
    pub fn abs(self) -> (l: Self)
        requires
            self.subdivisions != i64::MIN,
        ensures
            l.subdivisions == magnitude(self.subdivisions as int),
    {
        if self.subdivisions < 0 {
            Mm { subdivisions: -self.subdivisions }
        } else {
            self
        }
    }
}

impl core::ops::Add for Inch {
    type Output = Self;

    fn add(self, rhs: Self) -> (l: Self) {
        self.plus(rhs)
    }
}

impl vstd::std_specs::ops::AddSpecImpl for Inch {
    open spec fn obeys_add_spec() -> bool {
        true
    }

    open spec fn add_req(self, rhs: Self) -> bool {
        i64::MIN <= self.subdivisions + rhs.subdivisions <= i64::MAX
    }

    open spec fn add_spec(self, rhs: Self) -> Self {
        Inch { subdivisions: (self.subdivisions + rhs.subdivisions) as i64 }
    }
}

impl core::ops::Sub for Inch {
    type Output = Self;

    fn sub(self, rhs: Self) -> (l: Self) {
        self.minus(rhs)
    }
}

impl vstd::std_specs::ops::SubSpecImpl for Inch {
    open spec fn obeys_sub_spec() -> bool {
        true
    }

    open spec fn sub_req(self, rhs: Self) -> bool {
        i64::MIN <= self.subdivisions - rhs.subdivisions <= i64::MAX
    }

    open spec fn sub_spec(self, rhs: Self) -> Self {
        Inch { subdivisions: (self.subdivisions - rhs.subdivisions) as i64 }
    }
}

impl core::ops::Neg for Inch {
    type Output = Self;

    fn neg(self) -> (l: Self) {
        Inch { subdivisions: -self.subdivisions }
    }
}

impl vstd::std_specs::ops::NegSpecImpl for Inch {
    open spec fn obeys_neg_spec() -> bool {
        true
    }

    open spec fn neg_req(self) -> bool {
        self.subdivisions != i64::MIN
    }

    open spec fn neg_spec(self) -> Self {
        Inch { subdivisions: (-self.subdivisions) as i64 }
    }
}

impl Inch {
    /// Return the absolute value of the unit
    pub fn abs(self) -> (l: Self)
        requires
            self.subdivisions != i64::MIN,
        ensures
            l.subdivisions == magnitude(self.subdivisions as int),
    {
        if self.subdivisions < 0 {
            Inch { subdivisions: -self.subdivisions }
        } else {
            self
        }
    }
}

} // verus!
