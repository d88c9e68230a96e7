//! Text shown on screen: whole pixels in decimal.

use vstd::prelude::*;

verus! {

/// The decimal digit for a number below ten.
pub open spec fn digit(d: nat) -> char {
    if d == 0 {
        '0'
    } else if d == 1 {
        '1'
    } else if d == 2 {
        '2'
    } else if d == 3 {
        '3'
    } else if d == 4 {
        '4'
    } else if d == 5 {
        '5'
    } else if d == 6 {
        '6'
    } else if d == 7 {
        '7'
    } else if d == 8 {
        '8'
    } else {
        '9'
    }
}

/// A natural number in decimal, without leading zeros; zero is `"0"`.
pub open spec fn decimal(n: nat) -> Seq<char>
    decreases n,
{
    if n < 10 {
        seq![digit(n)]
    } else {
        decimal(n / 10).push(digit(n % 10))
    }
}

/// The distance of a coordinate from zero.
pub open spec fn magnitude(units: int) -> nat {
    if units < 0 {
        (-units) as nat
    } else {
        units as nat
    }
}

/// A length in units rounded to whole pixels; a length that lies halfway
/// between two whole pixels goes to the even one.
pub open spec fn rounded_pixels(units: nat) -> nat {
    let whole = units / 100;
    let rest = units % 100;
    if rest < 50 {
        whole
    } else if rest > 50 {
        whole + 1
    } else if whole % 2 == 0 {
        whole
    } else {
        whole + 1
    }
}

/// A coordinate in whole pixels as it is shown: a minus sign if the
/// coordinate is negative, also when it rounds to zero, then the rounded
/// distance from zero in decimal.
pub open spec fn pixel_text(units: int) -> Seq<char> {
    let sign = if units < 0 {
        seq!['-']
    } else {
        Seq::<char>::empty()
    };
    sign + decimal(rounded_pixels(magnitude(units)))
}

/// The line that shows a position: `Position: (x, y)` in whole pixels.
pub open spec fn position_line(x: int, y: int) -> Seq<char> {
    "Position: ("@ + pixel_text(x) + ", "@ + pixel_text(y) + ")"@
}

/// Appends a number in decimal.
pub fn push_decimal(out: &mut String, n: u64)
    ensures
        final(out)@ == old(out)@ + decimal(n as nat),
    decreases n,
{
    if n >= 10 {
        push_decimal(out, n / 10);
    }
    let d: usize = (n % 10) as usize;
    let digits = "0123456789";
    proof {
        reveal_strlit("0123456789");
    }
    let one = digits.substring_ascii(d, d + 1);
    assert(one@ =~= seq![digit(d as nat)]);
    out.append(one);
    assert(out@ =~= old(out)@ + decimal(n as nat));
}

/// Appends a coordinate in whole pixels.
pub fn push_pixels(out: &mut String, units: i64)
    ensures
        final(out)@ == old(out)@ + pixel_text(units as int),
{
    let size: u64 = if units < 0 {
        out.append("-");
        (-(units + 1)) as u64 + 1
    } else {
        units as u64
    };
    proof {
        reveal_strlit("-");
    }
    let whole: u64 = size / 100;
    let rest: u64 = size % 100;
    let rounded: u64 = if rest < 50 {
        whole
    } else if rest > 50 {
        whole + 1
    } else if whole % 2 == 0 {
        whole
    } else {
        whole + 1
    };
    push_decimal(out, rounded);
    assert(out@ =~= old(out)@ + pixel_text(units as int));
}

/// The line that shows a position.
pub fn position_text(x: i64, y: i64) -> (line: String)
    ensures
        line@ == position_line(x as int, y as int),
{
    let mut line = String::from_str("Position: (");
    push_pixels(&mut line, x);
    line.append(", ");
    push_pixels(&mut line, y);
    line.append(")");
    line
}

} // verus!
