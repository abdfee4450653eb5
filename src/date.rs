use vstd::prelude::*;
use crate::coerce::{
    all_digits, digit_char, digits_value, is_digit, lemma_digits_bound, lemma_padded,
    lemma_padded_of_digits, padded, parse_decimal, pow10,
};
use crate::errors::CoerceError;

verus! {

pub open spec fn is_leap_year(y: int) -> bool {
    (y % 4 == 0 && y % 100 != 0) || y % 400 == 0
}

pub open spec fn days_in_month(y: int, m: int) -> int {
    if m == 2 {
        if is_leap_year(y) {
            29
        } else {
            28
        }
    } else if m == 4 || m == 6 || m == 9 || m == 11 {
        30
    } else {
        31
    }
}

/// A day of the proleptic Gregorian calendar.
pub open spec fn is_calendar_date(y: int, m: int, d: int) -> bool {
    1 <= m <= 12 && 1 <= d <= days_in_month(y, m)
}

/// A date that the feed's eight-digit form can write.
pub open spec fn is_compact_date(y: int, m: int, d: int) -> bool {
    0 <= y <= 9999 && is_calendar_date(y, m, d)
}

/// The feed's `YYYYMMDD` form of a date.
pub open spec fn compact_of(y: int, m: int, d: int) -> Seq<char> {
    padded(y as nat, 4) + padded(m as nat, 2) + padded(d as nat, 2)
}

/// The date that an eight-digit `YYYYMMDD` text names, if it names one.
pub open spec fn date_of(raw: Seq<char>) -> Option<(int, int, int)> {
    if raw.len() == 8 && all_digits(raw) {
        let y = digits_value(raw.subrange(0, 4)) as int;
        let m = digits_value(raw.subrange(4, 6)) as int;
        let d = digits_value(raw.subrange(6, 8)) as int;
        if is_calendar_date(y, m, d) {
            Some((y, m, d))
        } else {
            None
        }
    } else {
        None
    }
}

/// Relies on chrono's `NaiveDate::from_ymd_opt`: `None` exactly when the
/// month or day does not exist in the proleptic Gregorian calendar (years
/// 0 to 9999 lie well within its range).
#[verifier::external_body]
fn calendar_has_day(year: i32, month: u32, day: u32) -> (r: bool)
    ensures
        0 <= year <= 9999 ==> (r <==> is_calendar_date(year as int, month as int, day as int)),
{
    chrono::NaiveDate::from_ymd_opt(year, month, day).is_some()
}

/// A calendar date in the range that the feed's `YYYYMMDD` form covers.
#[derive(Debug, Clone, Copy, PartialEq, Eq)]
pub struct CalendarDate {
    year: i32,
    month: u32,
    day: u32,
}

impl CalendarDate {
    #[verifier::type_invariant]
    spec fn valid(self) -> bool {
        is_compact_date(self.year as int, self.month as int, self.day as int)
    }

    /// Year, month and day.
    pub closed spec fn view(self) -> (int, int, int) {
        (self.year as int, self.month as int, self.day as int)
    }

    /// The date with these parts, or `None` where the day does not exist or
    /// the year lies outside 0 to 9999.
    pub fn new(year: i32, month: u32, day: u32) -> (r: Option<CalendarDate>)
        ensures
            is_compact_date(year as int, month as int, day as int) ==> (r matches Some(d) && d@
                == (year as int, month as int, day as int)),
            !is_compact_date(year as int, month as int, day as int) ==> r is None,
    {
        if year < 0 || year > 9999 {
            return None;
        }
        if calendar_has_day(year, month, day) {
            Some(CalendarDate { year, month, day })
        } else {
            None
        }
    }

    pub fn year(&self) -> (r: i32)
        ensures
            r as int == self@.0,
    {
        self.year
    }

    pub fn month(&self) -> (r: u32)
        ensures
            r as int == self@.1,
    {
        self.month
    }

    pub fn day(&self) -> (r: u32)
        ensures
            r as int == self@.2,
    {
        self.day
    }

    /// The date in the feed's `YYYYMMDD` form, as the query parameters carry it.
    pub fn to_compact(&self) -> (r: String)
        ensures
            r@ == compact_of(self@.0, self@.1, self@.2),
    {
        proof {
            use_type_invariant(self);
        }
        let mut out = String::new();
        push_padded(&mut out, self.year as u32, 4);
        push_padded(&mut out, self.month, 2);
        push_padded(&mut out, self.day, 2);
        out
    }
}

fn digit_text(k: u32) -> (r: &'static str)
    requires
        k < 10,
    ensures
        r@ == seq![digit_char(k as int)],
{
    let r = match k {
        0 => "0",
        1 => "1",
        2 => "2",
        3 => "3",
        4 => "4",
        5 => "5",
        6 => "6",
        7 => "7",
        8 => "8",
        _ => "9",
    };
    proof {
        reveal_strlit("0");
        reveal_strlit("1");
        reveal_strlit("2");
        reveal_strlit("3");
        reveal_strlit("4");
        reveal_strlit("5");
        reveal_strlit("6");
        reveal_strlit("7");
        reveal_strlit("8");
        reveal_strlit("9");
    }
    assert(r@ =~= seq![digit_char(k as int)]);
    r
}

fn push_padded(out: &mut String, n: u32, w: u32)
    ensures
        final(out)@ == old(out)@ + padded(n as nat, w as nat),
    decreases w,
{
    if w > 0 {
        push_padded(out, n / 10, w - 1);
        out.append(digit_text(n % 10));
        assert(padded(n as nat, w as nat) == padded((n / 10) as nat, (w - 1) as nat).push(
            digit_char(n as int % 10),
        ));
        assert(final(out)@ =~= old(out)@ + padded(n as nat, w as nat));
    } else {
        assert(old(out)@ + padded(n as nat, 0) =~= old(out)@);
    }
}

/// Reads the feed's `YYYYMMDD` date cell: exactly eight ASCII digits naming a
/// day of the calendar.
pub fn coerce_date(raw: &str) -> (r: Result<CalendarDate, CoerceError>)
    ensures
        date_of(raw@) matches Some(t) ==> (r matches Ok(d) && d@ == t),
        date_of(raw@) is None ==> (r matches Err(CoerceError::BadDate(s)) && s@ == raw@),
{
    if raw.unicode_len() != 8 {
        return Err(CoerceError::BadDate(raw.to_owned()));
    }
    let ys = raw.substring_char(0, 4);
    let ms = raw.substring_char(4, 6);
    let ds = raw.substring_char(6, 8);
    proof {
        lemma_split_date(raw@);
        assert(pow10(2) == 100 && pow10(4) == 10000) by {
            reveal_with_fuel(pow10, 5);
        }
        if all_digits(raw@) {
            lemma_digits_bound(ys@);
            lemma_digits_bound(ms@);
            lemma_digits_bound(ds@);
        }
    }
    let (y, m, d) = match (parse_decimal(ys), parse_decimal(ms), parse_decimal(ds)) {
        (Some(y), Some(m), Some(d)) => (y, m, d),
        _ => {
            return Err(CoerceError::BadDate(raw.to_owned()));
        },
    };
    match CalendarDate::new(y as i32, m as u32, d as u32) {
        Some(date) => Ok(date),
        None => Err(CoerceError::BadDate(raw.to_owned())),
    }
}

/// Eight characters are all digits exactly when their year, month and day
/// parts are.
proof fn lemma_split_date(s: Seq<char>)
    requires
        s.len() == 8,
    ensures
        all_digits(s) <==> (all_digits(s.subrange(0, 4)) && all_digits(s.subrange(4, 6))
            && all_digits(s.subrange(6, 8))),
{
    if all_digits(s.subrange(0, 4)) && all_digits(s.subrange(4, 6)) && all_digits(s.subrange(6, 8)) {
        assert forall|i: int| 0 <= i < s.len() implies is_digit(#[trigger] s[i]) by {
            if i < 4 {
                assert(s[i] == s.subrange(0, 4)[i]);
            } else if i < 6 {
                assert(s[i] == s.subrange(4, 6)[i - 4]);
            } else {
                assert(s[i] == s.subrange(6, 8)[i - 6]);
            }
        }
    }
    if all_digits(s) {
        assert forall|i: int| 0 <= i < 4 implies is_digit(#[trigger] s.subrange(0, 4)[i]) by {
            assert(s[i] == s.subrange(0, 4)[i]);
        }
        assert forall|i: int| 0 <= i < 2 implies is_digit(#[trigger] s.subrange(4, 6)[i]) by {
            assert(s[i + 4] == s.subrange(4, 6)[i]);
        }
        assert forall|i: int| 0 <= i < 2 implies is_digit(#[trigger] s.subrange(6, 8)[i]) by {
            assert(s[i + 6] == s.subrange(6, 8)[i]);
        }
    }
}

/// A `YYYYMMDD` text that names a day reads as a date that writes back as the
/// same text.
pub proof fn lemma_date_text_round_trip(raw: Seq<char>)
    requires
        date_of(raw) is Some,
    ensures
        ({
            let t = date_of(raw)->0;
            is_compact_date(t.0, t.1, t.2) && compact_of(t.0, t.1, t.2) == raw
        }),
{
    lemma_split_date(raw);
    let (ys, ms, ds) = (raw.subrange(0, 4), raw.subrange(4, 6), raw.subrange(6, 8));
    lemma_padded_of_digits(ys);
    lemma_padded_of_digits(ms);
    lemma_padded_of_digits(ds);
    lemma_digits_bound(ys);
    assert(pow10(4) == 10000) by {
        reveal_with_fuel(pow10, 5);
    }
    assert(ys + ms + ds =~= raw);
}

/// Every date that `YYYYMMDD` can write reads back as itself.
pub proof fn lemma_compact_round_trip(y: int, m: int, d: int)
    requires
        is_compact_date(y, m, d),
    ensures
        date_of(compact_of(y, m, d)) == Some((y, m, d)),
{
    assert(pow10(2) == 100 && pow10(4) == 10000) by {
        reveal_with_fuel(pow10, 5);
    }
    lemma_padded(y as nat, 4);
    lemma_padded(m as nat, 2);
    lemma_padded(d as nat, 2);
    let s = compact_of(y, m, d);
    assert(s.subrange(0, 4) =~= padded(y as nat, 4));
    assert(s.subrange(4, 6) =~= padded(m as nat, 2));
    assert(s.subrange(6, 8) =~= padded(d as nat, 2));
    lemma_split_date(s);
}

} // verus!
