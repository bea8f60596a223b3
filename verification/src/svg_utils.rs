//! Lengths written as SVG numbers: in dots, to three decimals, without trailing zeros.

use vstd::prelude::*;

use crate::geom::Rect;
use crate::strings::{decimal, digit, digit_char, push_decimal, string_push};
use crate::units::{Dot, SUBDIVISIONS_PER_DOT};

verus! {

/// The number of thousandths of a dot in a length of `s` subdivisions, in magnitude, rounded to
/// the nearest (a thousandth of a dot is 1143 subdivisions, an odd number, so there are no ties).
pub open spec fn thousandths(s: int) -> int {
    let m = if s < 0 {
        -s
    } else {
        s
    };
    if 2 * (m % 1143) >= 1143 {
        m / 1143 + 1
    } else {
        m / 1143
    }
}

/// The digits after the decimal point of `f` thousandths (`f` below 1000), without trailing
/// zeros.
pub open spec fn fraction_text(f: int) -> Seq<char> {
    if f % 100 == 0 {
        seq![digit_char(f / 100)]
    } else if f % 10 == 0 {
        seq![digit_char(f / 100), digit_char((f / 10) % 10)]
    } else {
        seq![digit_char(f / 100), digit_char((f / 10) % 10), digit_char(f % 10)]
    }
}

/// A length of `s` subdivisions written as an SVG number: in dots, rounded to three decimals,
/// without trailing zeros or a trailing point, and with a minus sign when the length is negative
/// (even where it rounds to zero).
pub open spec fn svg_number(s: int) -> Seq<char> {
    let t = thousandths(s);
    (if s < 0 {
        seq!['-']
    } else {
        Seq::empty()
    }) + decimal((t / 1000) as nat) + (if t % 1000 == 0 {
        Seq::empty()
    } else {
        seq!['.'] + fraction_text(t % 1000)
    })
}

/// An SVG number that follows another: a negative one starts with its minus sign, any other
/// with a space.
pub open spec fn svg_spaced(s: int) -> Seq<char> {
    if s < 0 {
        svg_number(s)
    } else {
        seq![' '] + svg_number(s)
    }
}

/// Appends a length of `s` subdivisions as an SVG number (see `svg_number`).
fn push_svg_number(out: &mut String, s: i128)
    requires
        -0x1_0000_0000_0000_0000 <= s <= 0x1_0000_0000_0000_0000,
    ensures
        final(out)@ == old(out)@ + svg_number(s as int),
{
    let m: u128 = if s < 0 {
        (-s) as u128
    } else {
        s as u128
    };
    let t: u128 = if 2 * (m % 1143) >= 1143 {
        m / 1143 + 1
    } else {
        m / 1143
    };
    if s < 0 {
        string_push(out, '-');
    }
    push_decimal(out, t / 1000);
    let f = t % 1000;
    if f != 0 {
        string_push(out, '.');
        string_push(out, digit(f / 100));
        if f % 100 != 0 {
            string_push(out, digit((f / 10) % 10));
            if f % 10 != 0 {
                string_push(out, digit(f % 10));
            }
        }
    }
    assert(out@ =~= old(out)@ + svg_number(s as int));
}

/// Appends a following SVG number (see `svg_spaced`).
fn push_svg_spaced(out: &mut String, s: i128)
    requires
        -0x1_0000_0000_0000_0000 <= s <= 0x1_0000_0000_0000_0000,
    ensures
        final(out)@ == old(out)@ + svg_spaced(s as int),
{
    if s >= 0 {
        string_push(out, ' ');
    }
    let ghost before = out@;
    push_svg_number(out, s);
    assert(out@ =~= old(out)@ + svg_spaced(s as int));
}

/// Format a value to an SVG representation
pub trait ToSvg {
    /// The value as SVG text
    fn to_svg(&self) -> String;
}

impl ToSvg for Dot {
    /// The length as an SVG number (see `svg_number`)
    fn to_svg(&self) -> (s: String)
        ensures
            s@ == svg_number(self.subdivisions as int),
    {
        let mut s = String::new();
        push_svg_number(&mut s, self.subdivisions as i128);
        assert(s@ =~= svg_number(self.subdivisions as int));
        s
    }
}

/// Used to format the value of the viewBox attribute
pub trait ToViewBox {
    /// The value as the text of a `viewBox` attribute
    fn to_view_box(&self) -> String;
}

impl ToViewBox for Rect {
    /// The rectangle's left and top edges, width and height, as SVG numbers
    fn to_view_box(&self) -> (s: String)
        ensures
            s@ == svg_number(self.min.x.subdivisions as int) + svg_spaced(
                self.min.y.subdivisions as int,
            ) + svg_spaced(self.max.x.subdivisions - self.min.x.subdivisions) + svg_spaced(
                self.max.y.subdivisions - self.min.y.subdivisions,
            ),
    {
        let mut s = String::new();
        push_svg_number(&mut s, self.min.x.subdivisions as i128);
        push_svg_spaced(&mut s, self.min.y.subdivisions as i128);
        push_svg_spaced(&mut s, self.max.x.subdivisions as i128 - self.min.x.subdivisions as i128);
        push_svg_spaced(&mut s, self.max.y.subdivisions as i128 - self.min.y.subdivisions as i128);
        assert(s@ =~= svg_number(self.min.x.subdivisions as int) + svg_spaced(
            self.min.y.subdivisions as int,
        ) + svg_spaced(self.max.x.subdivisions - self.min.x.subdivisions) + svg_spaced(
            self.max.y.subdivisions - self.min.y.subdivisions,
        ));
        s
    }
}

/// A whole number of dots is written without a decimal point.
pub proof fn law_whole_dots_have_no_point(n: int)
    requires
        n >= 0,
    ensures
        svg_number(n * SUBDIVISIONS_PER_DOT) == decimal(n as nat),
{
    assert(thousandths(n * 1143000) == n * 1000) by (nonlinear_arith)
        requires
            n >= 0,
    ;
    assert((n * 1000) / 1000 == n) by (nonlinear_arith);
    assert((n * 1000) % 1000 == 0) by (nonlinear_arith);
    assert(svg_number(n * SUBDIVISIONS_PER_DOT) =~= decimal(n as nat));
}

/// The value of a decimal digit character.
pub open spec fn digit_value(c: char) -> int {
    c as int - '0' as int
}

/// The value of a string of decimal digits.
pub open spec fn digits_value(s: Seq<char>) -> int
    decreases s.len(),
{
    if s.len() == 0 {
        0
    } else {
        digits_value(s.drop_last()) * 10 + digit_value(s.last())
    }
}

/// The position of the first decimal point in a string, or its length if it has none.
pub open spec fn point_position(s: Seq<char>) -> int
    decreases s.len(),
{
    if s.len() == 0 {
        0
    } else if s[0] == '.' {
        0
    } else {
        1 + point_position(s.drop_first())
    }
}

/// The value, in thousandths, of an unsigned decimal numeral with at most three digits after
/// its point: its whole part, and the digits after the point as tenths, hundredths and
/// thousandths.
pub open spec fn numeral_thousandths(s: Seq<char>) -> int {
    let p = point_position(s);
    let frac = if p < s.len() {
        s.subrange(p + 1, s.len() as int)
    } else {
        Seq::empty()
    };
    digits_value(s.subrange(0, p)) * 1000 + digits_value(frac) * (if frac.len() == 1 {
        100int
    } else if frac.len() == 2 {
        10int
    } else {
        1int
    })
}

/// A digit character is worth its digit.
proof fn lemma_digit_value(d: int)
    requires
        0 <= d < 10,
    ensures
        digit_value(digit_char(d)) == d,
        digit_char(d) != '.',
{
}

/// A decimal numeral has no point and is worth its number.
proof fn lemma_decimal_value(n: nat)
    ensures
        digits_value(decimal(n)) == n,
        point_position(decimal(n)) == decimal(n).len(),
        forall|i: int| 0 <= i < decimal(n).len() ==> decimal(n)[i] != '.',
    decreases n,
{
    let d = decimal(n);
    if n < 10 {
        lemma_digit_value(n as int);
        assert(d =~= seq![digit_char(n as int)]);
        assert(d.drop_last() =~= Seq::<char>::empty());
        assert(d.last() == digit_char(n as int));
        assert(digits_value(d) == digits_value(d.drop_last()) * 10 + digit_value(d.last()));
    } else {
        lemma_decimal_value(n / 10);
        lemma_digit_value((n % 10) as int);
        let prefix = decimal(n / 10);
        assert(d == prefix.push(digit_char((n % 10) as int)));
        assert(d.drop_last() =~= prefix);
        assert(d.last() == digit_char((n % 10) as int));
        assert(digits_value(d) == digits_value(d.drop_last()) * 10 + digit_value(d.last()));
        assert forall|i: int| 0 <= i < d.len() implies d[i] != '.' by {
            if i < prefix.len() {
                assert(d[i] == prefix[i]);
            }
        }
    }
    lemma_point_free(d);
}

/// A string without a point has its length as its point position.
proof fn lemma_point_free(s: Seq<char>)
    requires
        forall|i: int| 0 <= i < s.len() ==> s[i] != '.',
    ensures
        point_position(s) == s.len(),
    decreases s.len(),
{
    if s.len() > 0 {
        lemma_point_free(s.drop_first());
    }
}

/// The point of a string after a point-free prefix is found after that prefix.
proof fn lemma_point_after(a: Seq<char>, b: Seq<char>)
    requires
        forall|i: int| 0 <= i < a.len() ==> a[i] != '.',
    ensures
        point_position(a + b) == a.len() + point_position(b),
    decreases a.len(),
{
    if a.len() > 0 {
        assert((a + b).drop_first() =~= a.drop_first() + b);
        lemma_point_after(a.drop_first(), b);
    } else {
        assert(a + b =~= b);
    }
}

/// The digits after the point of `f` thousandths are worth `f` thousandths.
proof fn lemma_fraction_value(f: int)
    requires
        0 < f < 1000,
    ensures
        1 <= fraction_text(f).len() <= 3,
        digits_value(fraction_text(f)) * (if fraction_text(f).len() == 1 {
            100int
        } else if fraction_text(f).len() == 2 {
            10int
        } else {
            1int
        }) == f,
{
    let t = fraction_text(f);
    let (a, b, c) = (f / 100, (f / 10) % 10, f % 10);
    lemma_digit_value(a);
    lemma_digit_value(b);
    lemma_digit_value(c);
    assert(f == a * 100 + b * 10 + c);
    if f % 100 == 0 {
        assert(t =~= seq![digit_char(a)]);
        assert(t.drop_last() =~= Seq::<char>::empty());
        assert(digits_value(t) == digits_value(t.drop_last()) * 10 + digit_value(t.last()));
    } else if f % 10 == 0 {
        assert(t =~= seq![digit_char(a), digit_char(b)]);
        let t1 = t.drop_last();
        assert(t1 =~= seq![digit_char(a)]);
        assert(t1.drop_last() =~= Seq::<char>::empty());
        assert(digits_value(t1) == digits_value(t1.drop_last()) * 10 + digit_value(t1.last()));
        assert(digits_value(t) == digits_value(t1) * 10 + digit_value(t.last()));
    } else {
        assert(t =~= seq![digit_char(a), digit_char(b), digit_char(c)]);
        let t1 = t.drop_last();
        let t2 = t1.drop_last();
        assert(t1 =~= seq![digit_char(a), digit_char(b)]);
        assert(t2 =~= seq![digit_char(a)]);
        assert(t2.drop_last() =~= Seq::<char>::empty());
        assert(digits_value(t2) == digits_value(t2.drop_last()) * 10 + digit_value(t2.last()));
        assert(digits_value(t1) == digits_value(t2) * 10 + digit_value(t1.last()));
        assert(digits_value(t) == digits_value(t1) * 10 + digit_value(t.last()));
    }
}

/// The SVG number of a length reads back as its value rounded to the nearest thousandth of a
/// dot: after the minus sign of a negative length, the digits before the point are the whole
/// dots and those after it the tenths, hundredths and thousandths.
pub proof fn law_svg_number_reads_back(s: int)
    ensures
        s >= 0 ==> numeral_thousandths(svg_number(s)) == thousandths(s),
        s < 0 ==> svg_number(s)[0] == '-' && numeral_thousandths(svg_number(s).drop_first())
            == thousandths(s),
{
    let t = thousandths(s);
    let whole = decimal((t / 1000) as nat);
    let tail = if t % 1000 == 0 {
        Seq::<char>::empty()
    } else {
        seq!['.'] + fraction_text(t % 1000)
    };
    let text = whole + tail;
    lemma_decimal_value((t / 1000) as nat);
    lemma_point_after(whole, tail);
    if t % 1000 == 0 {
        assert(text =~= whole);
        assert(text.subrange(0, whole.len() as int) =~= whole);
    } else {
        lemma_fraction_value(t % 1000);
        assert(point_position(tail) == 0);
        assert(text.subrange(0, whole.len() as int) =~= whole);
        assert(text.subrange(whole.len() as int + 1, text.len() as int) =~= fraction_text(t % 1000));
    }
    assert(numeral_thousandths(text) == t);
    if s < 0 {
        assert(svg_number(s) =~= seq!['-'] + text);
        assert(svg_number(s).drop_first() =~= text);
    } else {
        assert(svg_number(s) =~= text);
    }
}

} // verus!
