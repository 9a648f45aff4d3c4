//! The arguments of the command that lists events: `min_price=`,
//! `max_price=`, `min_date=`, `max_date=`, `category=` and `keywords=`.
use vstd::prelude::*;

use crate::command::scan::{find_value, first_value, ValueKind};
use crate::dialogue::event_creation_dialogue::{parse_price_value, price_value};
use crate::schemas::event::{texts_view, CalendarDate, Decimal, EventFilter};
use crate::text::{
    all_digits, all_digits_in, chars_of, digits_value, digits_value_upto, find_char, index_from,
    lemma_index_from_bounds, string_from,
};

verus! {

/// Whether the year is a leap year of the Gregorian calendar.
pub open spec fn is_leap_year(y: int) -> bool {
    (y % 4 == 0 && y % 100 != 0) || y % 400 == 0
}

pub open spec fn days_in_month(y: int, m: int) -> int {
    if m == 2 {
        if is_leap_year(y) { 29 } else { 28 }
    } else if m == 4 || m == 6 || m == 9 || m == 11 {
        30
    } else {
        31
    }
}

/// A day that exists, in a year that `chrono` can hold.
pub open spec fn is_calendar_date(y: int, m: int, d: int) -> bool {
    &&& -262143 <= y <= 262142
    &&& 1 <= m <= 12
    &&& 1 <= d <= days_in_month(y, m)
}

/// Whether the day exists in the proleptic Gregorian calendar, in the
/// years -262143 to 262142.
fn calendar_date_exists(year: i32, month: u32, day: u32) -> (r: bool)
    ensures
        r == is_calendar_date(year as int, month as int, day as int),
{
    if year < -262143 || year > 262142 || month < 1 || month > 12 || day < 1 {
        return false;
    }
    // shifting by a multiple of 400 keeps every divisibility the leap rule asks about
    let n: u32 = (year as i64 + 400000) as u32;
    assert(n as int % 4 == year as int % 4 && n as int % 100 == year as int % 100 && n as int % 400
        == year as int % 400) by (nonlinear_arith)
        requires
            n as int == year as int + 400000,
    ;
    let leap = (n % 4 == 0 && n % 100 != 0) || n % 400 == 0;
    let days: u32 = if month == 2 {
        if leap { 29 } else { 28 }
    } else if month == 4 || month == 6 || month == 9 || month == 11 {
        30
    } else {
        31
    };
    day <= days
}

/// Largest number a part of a date may hold.
pub const DATE_PART_MAX: u64 = 100000;

/// The value of a nonempty run of digits that is not too large for a part
/// of a date.
pub open spec fn date_part(d: Seq<char>) -> Option<nat> {
    if d.len() > 0 && all_digits(d) && digits_value(d) <= DATE_PART_MAX {
        Some(digits_value(d))
    } else {
        None
    }
}

/// The date that a `day-month-year` text names, when it exists.
pub open spec fn dashed_date(cap: Seq<char>) -> Option<CalendarDate> {
    let i1 = index_from(cap, '-', 0);
    let i2 = index_from(cap, '-', i1 + 1);
    if i2 < cap.len() {
        let day = date_part(cap.take(i1 as int));
        let month = date_part(cap.subrange((i1 + 1) as int, i2 as int));
        let year = date_part(cap.skip((i2 + 1) as int));
        if day is Some && month is Some && year is Some && is_calendar_date(
            year->0 as int,
            month->0 as int,
            day->0 as int,
        ) {
            Some(CalendarDate { year: year->0 as i32, month: month->0 as u32, day: day->0 as u32 })
        } else {
            None
        }
    } else {
        None
    }
}

/// The text split at every comma.
pub open spec fn split_commas(s: Seq<char>) -> Seq<Seq<char>>
    decreases s.len(),
{
    let i = index_from(s, ',', 0);
    if i >= s.len() {
        seq![s]
    } else {
        seq![s.take(i as int)] + split_commas(s.skip((i + 1) as int))
    }
}

/// The captured value of the first `key` with a value of the given shape.
pub open spec fn captured(s: Seq<char>, key: Seq<char>, kind: ValueKind) -> Option<Seq<char>> {
    match first_value(s, key, kind, 0) {
        Some((a, b)) => Some(s.subrange(a as int, b as int)),
        None => None,
    }
}

pub open spec fn filter_price(s: Seq<char>, key: Seq<char>) -> Option<Decimal> {
    match captured(s, key, ValueKind::Number) {
        Some(c) => match price_value(c) {
            Some((_, d)) => Some(d),
            None => None,
        },
        None => None,
    }
}

pub open spec fn filter_date(s: Seq<char>, key: Seq<char>) -> Option<CalendarDate> {
    match captured(s, key, ValueKind::DashedDate) {
        Some(c) => dashed_date(c),
        None => None,
    }
}

pub open spec fn filter_keywords(s: Seq<char>) -> Option<Seq<Seq<char>>> {
    match captured(s, "keywords="@, ValueKind::WordList) {
        Some(c) => Some(split_commas(c)),
        None => None,
    }
}

fn slice_chars(v: &Vec<char>, a: usize, b: usize) -> (r: Vec<char>)
    requires
        a <= b <= v@.len(),
    ensures
        r@ == v@.subrange(a as int, b as int),
{
    let mut out: Vec<char> = Vec::new();
    let mut i: usize = a;
    while i < b
        invariant
            a <= i <= b <= v@.len(),
            out@ == v@.subrange(a as int, i as int),
        decreases b - i,
    {
        out.push(v[i]);
        i = i + 1;
        assert(out@ =~= v@.subrange(a as int, i as int));
    }
    out
}

fn capture(v: &Vec<char>, key: &str, kind: ValueKind) -> (r: Option<Vec<char>>)
    ensures
        r matches Some(c) ==> captured(v@, key@, kind) == Some(c@),
        r is None ==> captured(v@, key@, kind) is None,
{
    let k = chars_of(key);
    match find_value(v, &k, kind) {
        Some((a, b)) => Some(slice_chars(v, a, b)),
        None => None,
    }
}

fn read_date_part(v: &Vec<char>, from: usize, to: usize) -> (r: Option<u64>)
    requires
        from <= to <= v@.len(),
    ensures
        r matches Some(n) ==> date_part(v@.subrange(from as int, to as int)) == Some(n as nat),
        r is None ==> date_part(v@.subrange(from as int, to as int)) is None,
{
    if from == to || !all_digits_in(v, from, to) {
        return None;
    }
    digits_value_upto(v, from, to, DATE_PART_MAX)
}

fn read_dashed_date(c: &Vec<char>) -> (r: Option<CalendarDate>)
    ensures
        r == dashed_date(c@),
{
    let i1 = find_char(c, '-', 0);
    proof {
        lemma_index_from_bounds(c@, '-', 0);
    }
    if i1 >= c.len() {
        proof {
            lemma_index_from_bounds(c@, '-', (i1 + 1) as nat);
        }
        return None;
    }
    let i2 = find_char(c, '-', i1 + 1);
    proof {
        lemma_index_from_bounds(c@, '-', (i1 + 1) as nat);
    }
    if i2 >= c.len() {
        return None;
    }
    assert(c@.take(i1 as int) =~= c@.subrange(0, i1 as int));
    assert(c@.skip(i2 + 1) =~= c@.subrange(i2 + 1, c@.len() as int));
    let day = read_date_part(c, 0, i1);
    let month = read_date_part(c, i1 + 1, i2);
    let year = read_date_part(c, i2 + 1, c.len());
    match (day, month, year) {
        (Some(d), Some(m), Some(y)) => {
            if calendar_date_exists(y as i32, m as u32, d as u32) {
                Some(CalendarDate { year: y as i32, month: m as u32, day: d as u32 })
            } else {
                None
            }
        },
        _ => None,
    }
}

fn split_at_commas(c: &Vec<char>) -> (r: Vec<String>)
    ensures
        texts_view(r@) == split_commas(c@),
{
    let mut out: Vec<String> = Vec::new();
    let mut start: usize = 0;
    assert(c@.skip(0) =~= c@);
    assert(texts_view(out@) =~= Seq::<Seq<char>>::empty());
    assert(texts_view(out@) + split_commas(c@.skip(0)) =~= split_commas(c@));
    loop
        invariant
            start <= c@.len(),
            texts_view(out@) + split_commas(c@.skip(start as int)) == split_commas(c@),
        decreases c@.len() - start,
    {
        let i = find_char(c, ',', start);
        proof {
            lemma_index_from_bounds(c@, ',', start as nat);
            lemma_index_shift(c@, start as nat, 0);
        }
        let piece = slice_chars(c, start, i);
        let ghost rest = c@.skip(start as int);
        assert(piece@ =~= rest.take((i - start) as int));
        let ghost before = texts_view(out@);
        out.push(string_from(piece.as_slice()));
        assert(texts_view(out@) =~= before.push(piece@));
        if i >= c.len() {
            assert(rest.take((i - start) as int) =~= rest);
            assert(split_commas(rest) == seq![rest]);
            assert(texts_view(out@) =~= before + seq![rest]);
            return out;
        }
        assert(rest.skip((i - start) + 1) =~= c@.skip(i + 1));
        assert(split_commas(rest) == seq![rest.take((i - start) as int)] + split_commas(c@.skip(i + 1)));
        assert(texts_view(out@) + split_commas(c@.skip(i + 1)) =~= before + split_commas(rest));
        start = i + 1;
    }
}

proof fn lemma_index_shift(s: Seq<char>, start: nat, i: nat)
    requires
        start <= s.len(),
        i <= s.len() - start,
    ensures
        index_from(s, ',', start + i) == start + index_from(s.skip(start as int), ',', i),
    decreases s.len() - start - i,
{
    if i < s.len() - start {
        assert(s.skip(start as int)[i as int] == s[(start + i) as int]);
        if s[(start + i) as int] != ',' {
            lemma_index_shift(s, start, i + 1);
        }
    }
}

/// Reads the filters of the command that lists events. Each key is found at
/// the start of a word and its first occurrence with a well-formed value is
/// taken; keys that are missing, or whose value does not fit, leave their
/// filter unset. Prices are decimal numbers, dates are `day-month-year`,
/// the category is one word, and keywords are words separated by commas.
pub fn parse_event_filters(input: &str) -> (r: EventFilter)
    ensures
        r@.min_price == filter_price(input@, "min_price="@),
        r@.max_price == filter_price(input@, "max_price="@),
        r@.min_date == filter_date(input@, "min_date="@),
        r@.max_date == filter_date(input@, "max_date="@),
        r@.category == captured(input@, "category="@, ValueKind::Word),
        r@.keywords == filter_keywords(input@),
{
    let v = chars_of(input);
    let min_price = match capture(&v, "min_price=", ValueKind::Number) {
        Some(c) => match parse_price_value(&c) {
            Some((_, d)) => Some(d),
            None => None,
        },
        None => None,
    };
    let max_price = match capture(&v, "max_price=", ValueKind::Number) {
        Some(c) => match parse_price_value(&c) {
            Some((_, d)) => Some(d),
            None => None,
        },
        None => None,
    };
    let min_date = match capture(&v, "min_date=", ValueKind::DashedDate) {
        Some(c) => read_dashed_date(&c),
        None => None,
    };
    let max_date = match capture(&v, "max_date=", ValueKind::DashedDate) {
        Some(c) => read_dashed_date(&c),
        None => None,
    };
    let category = match capture(&v, "category=", ValueKind::Word) {
        Some(c) => Some(string_from(c.as_slice())),
        None => None,
    };
    let keywords = match capture(&v, "keywords=", ValueKind::WordList) {
        Some(c) => Some(split_at_commas(&c)),
        None => None,
    };
    EventFilter { max_price, min_price, max_date, min_date, category, keywords }
}

} // verus!
