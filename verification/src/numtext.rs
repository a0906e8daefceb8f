//! Decimal text for the numbers the dashboard shows: list row numbers and
//! certainty scores.  A certainty is carried as a whole number of hundredths,
//! and renders the way a unit-interval decimal reads: `40` hundredths as
//! `0.4`, `100` as `1`, `5` as `0.05`.

use vstd::prelude::*;

verus! {

/// The decimal digit character for `d` in `0..=9`.
pub open spec fn digit_char(d: int) -> char {
    if d == 0 {
        '0'
    } else if d == 1 {
        '1'
    } else if d == 2 {
        '2'
    } else if d == 3 {
        '3'
    } else if d == 4 {
        '4'
    } else if d == 5 {
        '5'
    } else if d == 6 {
        '6'
    } else if d == 7 {
        '7'
    } else if d == 8 {
        '8'
    } else {
        '9'
    }
}

/// The decimal digit string of a nonnegative `n`, most significant digit
/// first, with no leading zero except for `n == 0` itself.
pub open spec fn spec_udec(n: int) -> Seq<char>
    decreases n,
{
    if n < 10 {
        seq![digit_char(n)]
    } else {
        spec_udec(n / 10).push(digit_char(n % 10))
    }
}

/// The text a certainty of `c` hundredths renders as: the sign, the whole
/// part, and up to two fractional digits with trailing zeros dropped.
pub open spec fn spec_certainty_text(c: int) -> Seq<char> {
    if c < 0 {
        seq!['-'] + spec_magnitude_text(-c)
    } else {
        spec_magnitude_text(c)
    }
}

/// The text of a nonnegative number of hundredths.
pub open spec fn spec_magnitude_text(m: int) -> Seq<char> {
    let whole = m / 100;
    let frac = m % 100;
    if frac == 0 {
        spec_udec(whole)
    } else if frac % 10 == 0 {
        spec_udec(whole) + seq!['.', digit_char(frac / 10)]
    } else {
        spec_udec(whole) + seq!['.', digit_char(frac / 10), digit_char(frac % 10)]
    }
}

/// The one-character string for a decimal digit.
pub fn digit_str(d: u8) -> (r: &'static str)
    requires
        d < 10,
    ensures
        r@ =~= seq![digit_char(d as int)],
{
    proof {
        reveal_strlit("0");
        reveal_strlit("1");
        reveal_strlit("2");
        reveal_strlit("3");
        reveal_strlit("4");
        reveal_strlit("5");
        reveal_strlit("6");
        reveal_strlit("7");
        reveal_strlit("8");
        reveal_strlit("9");
    }
    match d {
        0 => "0",
        1 => "1",
        2 => "2",
        3 => "3",
        4 => "4",
        5 => "5",
        6 => "6",
        7 => "7",
        8 => "8",
        _ => "9",
    }
}

/// The decimal digit string of `n`.
pub fn u32_dec_string(n: u32) -> (r: String)
    ensures
        r@ == spec_udec(n as int),
    decreases n,
{
    if n < 10 {
        String::from_str(digit_str(n as u8))
    } else {
        let mut s = u32_dec_string(n / 10);
        s.append(digit_str((n % 10) as u8));
        proof {
            assert(s@ =~= spec_udec(n as int));
        }
        s
    }
}

/// The text a certainty of `c` hundredths renders as.
pub fn certainty_text(c: i32) -> (r: String)
    ensures
        r@ == spec_certainty_text(c as int),
{
    if c < 0 {
        let mag = -(c as i64);
        let mut s = String::from_str("-");
        let m = magnitude_text(mag as u32);
        s.append(m.as_str());
        proof {
            reveal_strlit("-");
            assert(s@ =~= spec_certainty_text(c as int));
        }
        s
    } else {
        magnitude_text(c as u32)
    }
}

/// The text of a nonnegative number of hundredths.
fn magnitude_text(m: u32) -> (r: String)
    ensures
        r@ == spec_magnitude_text(m as int),
{
    let whole = m / 100;
    let frac = m % 100;
    let mut s = u32_dec_string(whole);
    if frac == 0 {
        proof {
            assert(s@ =~= spec_magnitude_text(m as int));
        }
        s
    } else if frac % 10 == 0 {
        s.append(".");
        s.append(digit_str((frac / 10) as u8));
        proof {
            reveal_strlit(".");
            assert(s@ =~= spec_magnitude_text(m as int));
        }
        s
    } else {
        s.append(".");
        s.append(digit_str((frac / 10) as u8));
        s.append(digit_str((frac % 10) as u8));
        proof {
            reveal_strlit(".");
            assert(s@ =~= spec_magnitude_text(m as int));
        }
        s
    }
}

} // verus!
