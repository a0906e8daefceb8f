//! Calendar dates as plain values, and their `month/day/year` rendering.
//!
//! A prediction's timestamps are carried as year, month and day numbers, so
//! the formatting the detail panel needs is ordinary verified arithmetic.
//! Only reading the clock itself goes through the `time` crate.

use vstd::prelude::*;
use crate::numtext::digit_char;
use crate::numtext::digit_str;

verus! {

/// A calendar date held as plain numbers.
#[derive(Clone, Copy, PartialEq, Eq, Structural, Debug)]
pub struct SimpleDate {
    pub year: u16,
    pub month: u8,
    pub day: u8,
}

impl SimpleDate {
    /// The components name a renderable date: a four-digit year and calendar
    /// month and day numbers.
    pub open spec fn wf(self) -> bool {
        self.year <= 9999 && 1 <= self.month <= 12 && 1 <= self.day <= 31
    }

    /// Whether the components name a renderable date, decided at run time.
    pub fn is_renderable(&self) -> (r: bool)
        ensures
            r == self.wf(),
    {
        self.year <= 9999 && 1 <= self.month && self.month <= 12 && 1 <= self.day && self.day
            <= 31
    }
}

/// Two decimal digits, zero padded.
pub open spec fn spec_two_digits(n: int) -> Seq<char> {
    seq![digit_char(n / 10), digit_char(n % 10)]
}

/// Four decimal digits, zero padded: the hundreds pair then the ones pair.
pub open spec fn spec_four_digits(n: int) -> Seq<char> {
    spec_two_digits(n / 100) + spec_two_digits(n % 100)
}

/// The `month/day/year` text of a date: two-digit month and day, four-digit
/// year.
pub open spec fn spec_date_text(d: SimpleDate) -> Seq<char> {
    spec_two_digits(d.month as int) + seq!['/'] + spec_two_digits(d.day as int) + seq!['/']
        + spec_four_digits(d.year as int)
}

/// Append the two-digit rendering of `n` to `s`.
fn push_two_digits(s: &mut String, n: u8)
    requires
        n < 100,
    ensures
        final(s)@ == old(s)@ + spec_two_digits(n as int),
{
    s.append(digit_str(n / 10));
    s.append(digit_str(n % 10));
    proof {
        assert(final(s)@ =~= old(s)@ + spec_two_digits(n as int));
    }
}

/// Render a date as `month/day/year`.
pub fn format_date(d: &SimpleDate) -> (r: String)
    requires
        d.wf(),
    ensures
        r@ == spec_date_text(*d),
{
    let mut s = String::new();
    push_two_digits(&mut s, d.month);
    s.append("/");
    push_two_digits(&mut s, d.day);
    s.append("/");
    push_two_digits(&mut s, (d.year / 100) as u8);
    push_two_digits(&mut s, (d.year % 100) as u8);
    proof {
        reveal_strlit("/");
        assert(s@ =~= spec_date_text(*d));
    }
    s
}

/// Relies on `time::OffsetDateTime::now_local` for the clock, and on the
/// `time::Date` invariant that a month number is `1..=12` and a day number is
/// `1..=31`.  Returns `None` when the local offset cannot be determined.
#[verifier::external_body]
fn now_ymd() -> (r: Option<(i32, u8, u8)>)
    ensures
        r matches Some(t) ==> 1 <= t.1 <= 12 && 1 <= t.2 <= 31,
{
    match time::OffsetDateTime::now_local() {
        Ok(d) => Some((d.year(), u8::from(d.month()), d.day())),
        Err(_) => None,
    }
}

/// Decide what date the clock's answer yields: a date with a four-digit
/// year is taken exactly as it came, anything else falls back.
pub fn date_from_parts(t: Option<(i32, u8, u8)>, fallback: SimpleDate) -> (r: SimpleDate)
    requires
        fallback.wf(),
        t matches Some(p) ==> 1 <= p.1 <= 12 && 1 <= p.2 <= 31,
    ensures
        t is Some && 0 <= t->Some_0.0 <= 9999 ==> r == (SimpleDate {
            year: t->Some_0.0 as u16,
            month: t->Some_0.1,
            day: t->Some_0.2,
        }),
        (t is None || !(0 <= t->Some_0.0 <= 9999)) ==> r == fallback,
        r.wf(),
{
    match t {
        Some((y, m, d)) => {
            if 0 <= y && y <= 9999 {
                SimpleDate { year: y as u16, month: m, day: d }
            } else {
                fallback
            }
        },
        None => fallback,
    }
}

/// The current local date, or `fallback` when the clock cannot be read or
/// the year falls outside the four-digit range this dashboard renders.
/// What `date_from_parts` decides for each answer is pinned there; the
/// clock's answer itself depends on more than the arguments, so no more
/// can be promised here.
pub fn current_date_or(fallback: SimpleDate) -> (r: SimpleDate)
    requires
        fallback.wf(),
    ensures
        r.wf(),
{
    date_from_parts(now_ymd(), fallback)
}

} // verus!
