//! Event creation: one field per step, each validated before the draft
//! moves on; the last step hands the finished event to the backend.
use chrono::{Datelike, Timelike};
use vstd::prelude::*;
use vstd::string::StringSliceAdditionalSpecFns;

use crate::dialogue::{BackendCall, Reply, State, StepOutcome, UseCase, ValidationError};
use crate::schemas::event::{
    built, empty_draft, is_before, set_category, set_description, set_duration_minutes,
    set_location, set_max_capacity, set_organizer, set_price, set_start_date_time, set_title,
    Decimal, EventBuilder, EventBuilderView, LocalDateTime,
};
use crate::text::{
    all_digits, all_digits_in, chars_of, digits_value, digits_value_upto, find_char, index_from,
    is_digit, lemma_index_from_bounds, parse_u32, u32_text_value,
};

verus! {

/// The steps of event creation, each with the draft gathered so far.
#[derive(Clone, Debug)]
pub enum EventCreationStep {
    EnterTitle,
    EnterDescription { event_builder: EventBuilder },
    EnterDate { event_builder: EventBuilder },
    EnterDuration { event_builder: EventBuilder },
    EnterLocation { event_builder: EventBuilder },
    EnterMaxCapacity { event_builder: EventBuilder },
    EnterPrice { event_builder: EventBuilder },
    EnterCategory { event_builder: EventBuilder },
}

/// Layout of a start date: day/month/year hour:minute.
pub const DATE_FORMAT: &'static str = "%d/%m/%Y %H:%M";

/// The organizer sent with a new event; the backend sets the real one from
/// the session's token.
pub const ORGANIZER_PLACEHOLDER: &'static str = "placeholder";

/// Bounds, in bytes, of the text fields.
pub const TITLE_MIN: u32 = 0;
pub const TITLE_MAX: u32 = 100;
pub const DESCRIPTION_MIN: u32 = 10;
pub const DESCRIPTION_MAX: u32 = 1000;
pub const LOCATION_MIN: u32 = 3;
pub const LOCATION_MAX: u32 = 300;

/// Least duration of an event, in minutes.
pub const DURATION_MIN: u32 = 1;

/// Least capacity of an event.
pub const CAPACITY_MIN: u32 = 0;

/// Most digits allowed after the decimal point of a price.
pub const PRICE_DECIMALS: u32 = 2;

/// A start date and time of an event.
#[derive(Debug, Clone, Copy, PartialEq, Eq, Structural)]
pub struct Date(pub LocalDateTime);

/// One of the known event categories, spelled as the backend knows it.
#[derive(Debug, Clone)]
pub struct Category(pub String);

/// The state a creation step leads to, with its reply, if it is one.
pub open spec fn creation_advance(r: StepOutcome) -> Option<(EventCreationStep, Reply)> {
    match r {
        StepOutcome::Advance(State::Authenticated(UseCase::EventCreation(s)), rep) => Some((s, rep)),
        _ => None,
    }
}

/// Whether the step refused its input for this reason, keeping the state.
pub open spec fn refused(r: StepOutcome, e: ValidationError) -> bool {
    r matches StepOutcome::Stay(Reply::Invalid(f)) && f == e
}

// ---------------------------------------------------------------- text

/// A text field of `min` to `max` bytes (UTF-8).
pub open spec fn text_input(text: Option<&str>, min: u32, max: u32) -> Result<Seq<char>, ValidationError> {
    match text {
        None => Err(ValidationError::MissingValue),
        Some(t) => if t.spec_bytes().len() > max {
            Err(ValidationError::TooLong(max))
        } else if t.spec_bytes().len() < min {
            Err(ValidationError::TooShort(min))
        } else {
            Ok(t@)
        },
    }
}

/// Checks a text field against its bounds in bytes.
pub fn get_string_input_data(text: Option<&str>, min_length: u32, max_length: u32) -> (r: Result<
    String,
    ValidationError,
>)
    ensures
        r is Ok <==> text_input(text, min_length, max_length) is Ok,
        r matches Ok(s) ==> text_input(text, min_length, max_length) == Ok::<Seq<char>, ValidationError>(s@),
        r matches Err(e) ==> text_input(text, min_length, max_length) == Err::<Seq<char>, ValidationError>(e),
{
    match text {
        None => Err(ValidationError::MissingValue),
        Some(t) => {
            let n = t.as_bytes().len();
            if n > max_length as usize {
                Err(ValidationError::TooLong(max_length))
            } else if n < min_length as usize {
                Err(ValidationError::TooShort(min_length))
            } else {
                Ok(t.to_owned())
            }
        },
    }
}

// ------------------------------------------------------------- integers

/// A value within optional inclusive bounds.
pub open spec fn range_check(value: u32, min: Option<u32>, max: Option<u32>) -> Result<u32, ValidationError> {
    if min is Some && value < min->0 {
        Err(ValidationError::BelowMinimum(min->0))
    } else if max is Some && value > max->0 {
        Err(ValidationError::AboveMaximum(max->0))
    } else {
        Ok(value)
    }
}

/// Checks a value against optional inclusive bounds, the lower one first.
pub fn validate_range(value: u32, min_value: Option<u32>, max_value: Option<u32>) -> (r: Result<
    u32,
    ValidationError,
>)
    ensures
        r == range_check(value, min_value, max_value),
{
    if let Some(min) = min_value {
        if value < min {
            return Err(ValidationError::BelowMinimum(min));
        }
    }
    if let Some(max) = max_value {
        if value > max {
            return Err(ValidationError::AboveMaximum(max));
        }
    }
    Ok(value)
}

/// A whole-number field within optional bounds.
pub open spec fn integer_input(text: Option<&str>, min: Option<u32>, max: Option<u32>) -> Result<u32, ValidationError> {
    match text {
        None => Err(ValidationError::MissingValue),
        Some(t) => match u32_text_value(t@) {
            None => Err(ValidationError::NotAnInteger),
            Some(v) => range_check(v, min, max),
        },
    }
}

/// Reads a whole-number field and checks its bounds.
pub fn get_integer_input_data(text: Option<&str>, min_value: Option<u32>, max_value: Option<u32>) -> (r: Result<
    u32,
    ValidationError,
>)
    ensures
        r == integer_input(text, min_value, max_value),
{
    match text {
        None => Err(ValidationError::MissingValue),
        Some(t) => match parse_u32(t) {
            None => Err(ValidationError::NotAnInteger),
            Some(v) => validate_range(v, min_value, max_value),
        },
    }
}

// ---------------------------------------------------------------- price

/// Number of characters after the first `.`, up to a second `.` or the end.
pub open spec fn decimals_count(s: Seq<char>) -> nat {
    let p = index_from(s, '.', 0);
    if p >= s.len() {
        0
    } else {
        (index_from(s, '.', p + 1) - (p + 1)) as nat
    }
}

/// The number a price text holds, with whether it carries a minus sign: an
/// optional sign, digits, and optionally a point followed by digits, with at
/// least one digit in all.
pub open spec fn price_value(s: Seq<char>) -> Option<(bool, Decimal)> {
    let negative = s.len() > 0 && s[0] == '-';
    let body = if s.len() > 0 && (s[0] == '-' || s[0] == '+') { s.drop_first() } else { s };
    let p = index_from(body, '.', 0);
    let int_part = body.take(p as int);
    let frac = if p < body.len() { body.skip((p + 1) as int) } else { Seq::<char>::empty() };
    if all_digits(int_part) && all_digits(frac) && int_part.len() + frac.len() > 0
        && digits_value(int_part + frac) <= u64::MAX && frac.len() <= u32::MAX {
        Some((negative, Decimal { units: digits_value(int_part + frac) as u64, scale: frac.len() as u32 }))
    } else {
        None
    }
}

/// A price field: at most two decimals, a number, and not below zero.
pub open spec fn price_input(text: Option<&str>) -> Result<Decimal, ValidationError> {
    match text {
        None => Err(ValidationError::MissingValue),
        Some(t) => if decimals_count(t@) > PRICE_DECIMALS {
            Err(ValidationError::TooManyDecimals(PRICE_DECIMALS))
        } else {
            match price_value(t@) {
                None => Err(ValidationError::NotANumber),
                Some((negative, d)) => if negative && d.units > 0 {
                    Err(ValidationError::BelowMinimum(0))
                } else {
                    Ok(d)
                },
            }
        },
    }
}

fn count_decimals(v: &Vec<char>) -> (r: usize)
    ensures
        r == decimals_count(v@),
{
    let p = find_char(v, '.', 0);
    proof {
        lemma_index_from_bounds(v@, '.', 0);
    }
    if p >= v.len() {
        0
    } else {
        let q = find_char(v, '.', p + 1);
        proof {
            lemma_index_from_bounds(v@, '.', (p + 1) as nat);
        }
        q - (p + 1)
    }
}

/// The characters of `v[a..b]` followed by those of `v[c..d]`.
fn join_ranges(v: &Vec<char>, a: usize, b: usize, c: usize, d: usize) -> (r: Vec<char>)
    requires
        a <= b <= v@.len(),
        c <= d <= v@.len(),
    ensures
        r@ == v@.subrange(a as int, b as int) + v@.subrange(c as int, d as int),
{
    let mut out: Vec<char> = Vec::new();
    let mut i: usize = a;
    while i < b
        invariant
            a <= i <= b <= v@.len(),
            out@ == v@.subrange(a as int, i as int),
        decreases b - i,
    {
        out.push(v[i]);
        i = i + 1;
        assert(out@ =~= v@.subrange(a as int, i as int));
    }
    let mut j: usize = c;
    while j < d
        invariant
            c <= j <= d <= v@.len(),
            a <= b <= v@.len(),
            out@ == v@.subrange(a as int, b as int) + v@.subrange(c as int, j as int),
        decreases d - j,
    {
        out.push(v[j]);
        j = j + 1;
        assert(out@ =~= v@.subrange(a as int, b as int) + v@.subrange(c as int, j as int));
    }
    out
}

proof fn lemma_all_digits_concat(x: Seq<char>, y: Seq<char>)
    requires
        all_digits(x),
        all_digits(y),
    ensures
        all_digits(x + y),
{
    assert forall|k: int| 0 <= k < (x + y).len() implies is_digit(#[trigger] (x + y)[k]) by {
        if k < x.len() {
            assert(is_digit(x[k]));
        } else {
            assert(is_digit(y[k - x.len()]));
        }
    }
}

/// Reads the number a price text holds.
pub fn parse_price_value(v: &Vec<char>) -> (r: Option<(bool, Decimal)>)
    ensures
        r == price_value(v@),
{
    let negative = v.len() > 0 && v[0] == '-';
    let start: usize = if v.len() > 0 && (v[0] == '-' || v[0] == '+') { 1 } else { 0 };
    let ghost body = if v@.len() > 0 && (v@[0] == '-' || v@[0] == '+') { v@.drop_first() } else { v@ };
    assert(body =~= v@.subrange(start as int, v@.len() as int));
    let bp = find_char(v, '.', start);
    proof {
        lemma_index_from_bounds(v@, '.', start as nat);
        lemma_index_from_bounds(body, '.', 0);
        lemma_same_index(v@, body, start as nat, 0);
    }
    let ghost int_part = body.take((bp - start) as int);
    let ghost frac = if bp - start < body.len() { body.skip(bp - start + 1) } else { Seq::<char>::empty() };
    let frac_start: usize = if bp < v.len() { bp + 1 } else { v.len() };
    assert(int_part =~= v@.subrange(start as int, bp as int));
    assert(frac =~= v@.subrange(frac_start as int, v@.len() as int));
    let int_ok = all_digits_in(v, start, bp);
    let frac_ok = all_digits_in(v, frac_start, v.len());
    if !int_ok || !frac_ok || (bp - start) + (v.len() - frac_start) == 0 || v.len() - frac_start
        > u32::MAX as usize {
        return None;
    }
    let digits = join_ranges(v, start, bp, frac_start, v.len());
    assert(digits@ =~= int_part + frac);
    assert(digits@.subrange(0, digits@.len() as int) =~= digits@);
    proof {
        lemma_all_digits_concat(int_part, frac);
    }
    match digits_value_upto(&digits, 0, digits.len(), u64::MAX) {
        Some(units) => Some((negative, Decimal { units, scale: (v.len() - frac_start) as u32 })),
        None => None,
    }
}

/// Reads a price: a decimal number with at most two decimals, not below
/// zero.
pub fn get_price_input_data(text: Option<&str>) -> (r: Result<Decimal, ValidationError>)
    ensures
        r == price_input(text),
{
    let t = match text {
        None => {
            return Err(ValidationError::MissingValue);
        },
        Some(t) => t,
    };
    let v = chars_of(t);
    if count_decimals(&v) > PRICE_DECIMALS as usize {
        return Err(ValidationError::TooManyDecimals(PRICE_DECIMALS));
    }
    match parse_price_value(&v) {
        None => Err(ValidationError::NotANumber),
        Some((negative, d)) => {
            if negative && d.units > 0 {
                Err(ValidationError::BelowMinimum(0))
            } else {
                Ok(d)
            }
        },
    }
}

proof fn lemma_same_index(s: Seq<char>, body: Seq<char>, start: nat, i: nat)
    requires
        start <= s.len(),
        body == s.subrange(start as int, s.len() as int),
        i <= body.len(),
    ensures
        index_from(s, '.', start + i) == start + index_from(body, '.', i),
    decreases body.len() - i,
{
    if i < body.len() {
        assert(body[i as int] == s[(start + i) as int]);
        if body[i as int] != '.' {
            lemma_same_index(s, body, start, i + 1);
        }
    }
}

// ------------------------------------------------------------- category

/// Equality of two characters when ASCII letters are compared without case.
pub open spec fn ascii_ci_eq(a: char, b: char) -> bool {
    ||| a == b
    ||| ('A' <= a <= 'Z' && b as u32 == a as u32 + 32)
    ||| ('a' <= a <= 'z' && a as u32 == b as u32 + 32)
}

/// What `str::eq_ignore_ascii_case` decides: the same text up to the case of
/// ASCII letters.
pub open spec fn eq_ignore_ascii_case(a: Seq<char>, b: Seq<char>) -> bool {
    a.len() == b.len() && forall|i: int| 0 <= i < a.len() ==> ascii_ci_eq(#[trigger] a[i], b[i])
}

fn char_ci_eq(a: char, b: char) -> (r: bool)
    ensures
        r == ascii_ci_eq(a, b),
{
    a == b || ('A' <= a && a <= 'Z' && b as u32 == a as u32 + 32) || ('a' <= a && a <= 'z' && a
        as u32 == b as u32 + 32)
}

fn text_ci_eq(a: &str, b: &str) -> (r: bool)
    ensures
        r == eq_ignore_ascii_case(a@, b@),
{
    let x = chars_of(a);
    let y = chars_of(b);
    if x.len() != y.len() {
        return false;
    }
    let mut i: usize = 0;
    while i < x.len()
        invariant
            x@ == a@,
            y@ == b@,
            x.len() == y.len(),
            i <= x.len(),
            forall|k: int| 0 <= k < i ==> ascii_ci_eq(#[trigger] x@[k], y@[k]),
        decreases x.len() - i,
    {
        if !char_ci_eq(x[i], y[i]) {
            return false;
        }
        i = i + 1;
    }
    true
}

/// Number of known categories.
pub const CATEGORY_COUNT: usize = 10;

/// The known categories, as the backend spells them.
pub open spec fn category_names() -> Seq<Seq<char>> {
    seq![
        "Deporte"@,
        "Moda"@,
        "Educacion"@,
        "Tecnologia"@,
        "Musica"@,
        "Gastronomia"@,
        "Arte"@,
        "Negocios"@,
        "Salud"@,
        "Entretenimiento"@,
    ]
}

/// The first known category, from index `i` on, that equals `s` up to ASCII
/// case.
pub open spec fn matching_category(s: Seq<char>, i: nat) -> Option<Seq<char>>
    decreases CATEGORY_COUNT - i,
{
    if i >= CATEGORY_COUNT {
        None
    } else if eq_ignore_ascii_case(category_names()[i as int], s) {
        Some(category_names()[i as int])
    } else {
        matching_category(s, i + 1)
    }
}

impl Category {
    /// The known category at `i`, in the order of `category_names`.
    pub fn valid_category(i: usize) -> (r: &'static str)
        requires
            i < CATEGORY_COUNT,
        ensures
            r@ == category_names()[i as int],
    {
        if i == 0 { "Deporte" }
        else if i == 1 { "Moda" }
        else if i == 2 { "Educacion" }
        else if i == 3 { "Tecnologia" }
        else if i == 4 { "Musica" }
        else if i == 5 { "Gastronomia" }
        else if i == 6 { "Arte" }
        else if i == 7 { "Negocios" }
        else if i == 8 { "Salud" }
        else { "Entretenimiento" }
    }

    /// The known category that `s` names, whatever the case of its ASCII
    /// letters, spelled as the backend knows it.
    pub fn parse(s: &str) -> (r: Option<Category>)
        ensures
            r is Some <==> matching_category(s@, 0) is Some,
            r matches Some(c) ==> matching_category(s@, 0) == Some(c.0@),
    {
        let mut i: usize = 0;
        while i < CATEGORY_COUNT
            invariant
                i <= CATEGORY_COUNT,
                matching_category(s@, 0) == matching_category(s@, i as nat),
            decreases CATEGORY_COUNT - i,
        {
            let name = Category::valid_category(i);
            if text_ci_eq(name, s) {
                return Some(Category(name.to_owned()));
            }
            i = i + 1;
        }
        None
    }
}

// ----------------------------------------------------------------- date

/// What `chrono` reads from a text in a given layout.
pub uninterp spec fn parsed_date_time(text: Seq<char>, format: Seq<char>) -> Option<LocalDateTime>;

/// Relies on `chrono::NaiveDateTime::parse_from_str`: the date and time that
/// the text holds in the given layout, which depends on the two texts alone.
#[verifier::external_body]
fn parse_date_time(text: &str, format: &str) -> (r: Option<LocalDateTime>)
    ensures
        r == parsed_date_time(text@, format@),
{
    chrono::NaiveDateTime::parse_from_str(text, format).ok().map(|d| LocalDateTime {
        year: d.year(),
        month: d.month(),
        day: d.day(),
        hour: d.hour(),
        minute: d.minute(),
        second: d.second(),
        nanosecond: d.nanosecond(),
    })
}

/// Relies on `chrono::Local::now`: the machine's current local date and time.
#[verifier::external_body]
fn local_now() -> (r: LocalDateTime) {
    let d = chrono::Local::now().naive_local();
    LocalDateTime {
        year: d.year(),
        month: d.month(),
        day: d.day(),
        hour: d.hour(),
        minute: d.minute(),
        second: d.second(),
        nanosecond: d.nanosecond(),
    }
}

impl Date {
    /// A start date in the day/month/year hour:minute layout.
    pub fn parse(s: &str) -> (r: Option<Date>)
        ensures
            r is Some <==> parsed_date_time(s@, DATE_FORMAT@) is Some,
            r matches Some(d) ==> parsed_date_time(s@, DATE_FORMAT@) == Some(d.0),
    {
        match parse_date_time(s, DATE_FORMAT) {
            Some(d) => Some(Date(d)),
            None => None,
        }
    }
}

/// A start date field: in the expected layout and not in the past at `now`.
pub open spec fn date_input(text: Option<&str>, now: LocalDateTime) -> Result<LocalDateTime, ValidationError> {
    match text {
        None => Err(ValidationError::MissingValue),
        Some(t) => match parsed_date_time(t@, DATE_FORMAT@) {
            None => Err(ValidationError::BadDate),
            Some(d) => if is_before(d, now) {
                Err(ValidationError::PastDate)
            } else {
                Ok(d)
            },
        },
    }
}

// ---------------------------------------------------------------- steps

/// The creation step that follows one whose input was accepted.
pub open spec fn advanced_to(r: StepOutcome, expected: spec_fn(EventCreationStep) -> bool, reply: Reply) -> bool {
    match creation_advance(r) {
        Some((s, rep)) => expected(s) && rep == reply,
        None => false,
    }
}

/// The outcome of a step whose input is checked into `input`: refused with
/// the reason, or moved on as `accepted` says.
pub open spec fn field_step<T>(
    r: StepOutcome,
    input: Result<T, ValidationError>,
    accepted: spec_fn(EventCreationStep) -> bool,
    reply: Reply,
) -> bool {
    match input {
        Err(e) => refused(r, e),
        Ok(_) => advanced_to(r, accepted, reply),
    }
}

fn advance(step: EventCreationStep, reply: Reply) -> (r: StepOutcome)
    ensures
        creation_advance(r) == Some((step, reply)),
{
    StepOutcome::Advance(State::Authenticated(UseCase::EventCreation(step)), reply)
}

/// Starts event creation: the first field asked for is the title.
pub fn handle_create_event() -> (r: StepOutcome)
    ensures
        creation_advance(r) matches Some((EventCreationStep::EnterTitle, Reply::AskTitle)),
{
    advance(EventCreationStep::EnterTitle, Reply::AskTitle)
}

/// The title step: a fresh draft holding the title.
pub fn handle_enter_title(text: Option<&str>) -> (r: StepOutcome)
    ensures
        field_step(
            r,
            text_input(text, TITLE_MIN, TITLE_MAX),
            |s: EventCreationStep| s matches EventCreationStep::EnterDescription { event_builder: b }
                && b@ == set_title(empty_draft(), text_input(text, TITLE_MIN, TITLE_MAX)->Ok_0),
            Reply::AskDescription,
        ),
{
    match get_string_input_data(text, TITLE_MIN, TITLE_MAX) {
        Ok(title) => {
            let mut event_builder = EventBuilder::new();
            event_builder.title(title);
            advance(EventCreationStep::EnterDescription { event_builder }, Reply::AskDescription)
        },
        Err(e) => StepOutcome::Stay(Reply::Invalid(e)),
    }
}

/// The description step.
pub fn handle_enter_description(event_builder: EventBuilder, text: Option<&str>) -> (r: StepOutcome)
    ensures
        field_step(
            r,
            text_input(text, DESCRIPTION_MIN, DESCRIPTION_MAX),
            |s: EventCreationStep| s matches EventCreationStep::EnterDate { event_builder: b } && b@
                == set_description(
                event_builder@,
                text_input(text, DESCRIPTION_MIN, DESCRIPTION_MAX)->Ok_0,
            ),
            Reply::AskStartDate,
        ),
{
    match get_string_input_data(text, DESCRIPTION_MIN, DESCRIPTION_MAX) {
        Ok(description) => {
            let mut event_builder = event_builder;
            event_builder.description(description);
            advance(EventCreationStep::EnterDate { event_builder }, Reply::AskStartDate)
        },
        Err(e) => StepOutcome::Stay(Reply::Invalid(e)),
    }
}

/// The start date step, judged against `now`.
pub fn date_step(event_builder: EventBuilder, text: Option<&str>, now: LocalDateTime) -> (r: StepOutcome)
    ensures
        field_step(
            r,
            date_input(text, now),
            |s: EventCreationStep| s matches EventCreationStep::EnterDuration { event_builder: b } && b@
                == set_start_date_time(event_builder@, date_input(text, now)->Ok_0),
            Reply::AskDuration,
        ),
{
    let t = match text {
        None => {
            return StepOutcome::Stay(Reply::Invalid(ValidationError::MissingValue));
        },
        Some(t) => t,
    };
    match Date::parse(t) {
        None => StepOutcome::Stay(Reply::Invalid(ValidationError::BadDate)),
        Some(Date(date)) => {
            if date.lt(&now) {
                StepOutcome::Stay(Reply::Invalid(ValidationError::PastDate))
            } else {
                let mut event_builder = event_builder;
                event_builder.start_date_time(date);
                advance(EventCreationStep::EnterDuration { event_builder }, Reply::AskDuration)
            }
        },
    }
}

/// The start date step, judged against the current local time: a text in
/// the wrong layout is refused; a date that parses is either refused as past
/// or carried on in the draft.
pub fn handle_enter_date(event_builder: EventBuilder, text: Option<&str>) -> (r: StepOutcome)
    ensures
        text is None ==> refused(r, ValidationError::MissingValue),
        text is Some && parsed_date_time(text->0@, DATE_FORMAT@) is None ==> refused(
            r,
            ValidationError::BadDate,
        ),
        text is Some && parsed_date_time(text->0@, DATE_FORMAT@) is Some ==> refused(
            r,
            ValidationError::PastDate,
        ) || advanced_to(
            r,
            |s: EventCreationStep| s matches EventCreationStep::EnterDuration { event_builder: b } && b@
                == set_start_date_time(event_builder@, parsed_date_time(text->0@, DATE_FORMAT@)->0),
            Reply::AskDuration,
        ),
{
    let now = local_now();
    date_step(event_builder, text, now)
}

/// The duration step: whole minutes, at least one.
pub fn handle_enter_duration(event_builder: EventBuilder, text: Option<&str>) -> (r: StepOutcome)
    ensures
        field_step(
            r,
            integer_input(text, Some(DURATION_MIN), None),
            |s: EventCreationStep| s matches EventCreationStep::EnterLocation { event_builder: b } && b@
                == set_duration_minutes(
                event_builder@,
                integer_input(text, Some(DURATION_MIN), None)->Ok_0,
            ),
            Reply::AskLocation,
        ),
{
    match get_integer_input_data(text, Some(DURATION_MIN), None) {
        Ok(duration_minutes) => {
            let mut event_builder = event_builder;
            event_builder.duration_minutes(duration_minutes);
            advance(EventCreationStep::EnterLocation { event_builder }, Reply::AskLocation)
        },
        Err(e) => StepOutcome::Stay(Reply::Invalid(e)),
    }
}

/// The location step.
pub fn handle_enter_location(event_builder: EventBuilder, text: Option<&str>) -> (r: StepOutcome)
    ensures
        field_step(
            r,
            text_input(text, LOCATION_MIN, LOCATION_MAX),
            |s: EventCreationStep| s matches EventCreationStep::EnterMaxCapacity { event_builder: b }
                && b@ == set_location(event_builder@, text_input(text, LOCATION_MIN, LOCATION_MAX)->Ok_0),
            Reply::AskMaxCapacity,
        ),
{
    match get_string_input_data(text, LOCATION_MIN, LOCATION_MAX) {
        Ok(location) => {
            let mut event_builder = event_builder;
            event_builder.location(location);
            advance(EventCreationStep::EnterMaxCapacity { event_builder }, Reply::AskMaxCapacity)
        },
        Err(e) => StepOutcome::Stay(Reply::Invalid(e)),
    }
}

/// The capacity step: a whole number, zero or more.
pub fn handle_enter_max_capacity(event_builder: EventBuilder, text: Option<&str>) -> (r: StepOutcome)
    ensures
        field_step(
            r,
            integer_input(text, Some(CAPACITY_MIN), None),
            |s: EventCreationStep| s matches EventCreationStep::EnterPrice { event_builder: b } && b@
                == set_max_capacity(event_builder@, integer_input(text, Some(CAPACITY_MIN), None)->Ok_0),
            Reply::AskPrice,
        ),
{
    match get_integer_input_data(text, Some(CAPACITY_MIN), None) {
        Ok(max_capacity) => {
            let mut event_builder = event_builder;
            event_builder.max_capacity(max_capacity);
            advance(EventCreationStep::EnterPrice { event_builder }, Reply::AskPrice)
        },
        Err(e) => StepOutcome::Stay(Reply::Invalid(e)),
    }
}

/// The price step.
pub fn handle_enter_price(event_builder: EventBuilder, text: Option<&str>) -> (r: StepOutcome)
    ensures
        field_step(
            r,
            price_input(text),
            |s: EventCreationStep| s matches EventCreationStep::EnterCategory { event_builder: b } && b@
                == set_price(event_builder@, price_input(text)->Ok_0),
            Reply::AskCategory,
        ),
{
    match get_price_input_data(text) {
        Ok(price) => {
            let mut event_builder = event_builder;
            event_builder.price(price);
            advance(EventCreationStep::EnterCategory { event_builder }, Reply::AskCategory)
        },
        Err(e) => StepOutcome::Stay(Reply::Invalid(e)),
    }
}

/// The draft of the last step, completed with its category and the
/// organizer placeholder.
pub open spec fn completed_draft(d: EventBuilderView, category: Seq<char>) -> EventBuilderView {
    set_organizer(set_category(d, category), ORGANIZER_PLACEHOLDER@)
}

/// A draft that holds every field up to the price, as the steps before the
/// last one leave it, finalizes once its category and organizer are added.
pub proof fn lemma_last_step_completes(d: EventBuilderView, category: Seq<char>)
    requires
        d.title is Some,
        d.description is Some,
        d.start_date_time is Some,
        d.duration_minutes is Some,
        d.location is Some,
        d.max_capacity is Some,
        d.price is Some,
    ensures
        built(completed_draft(d, category)) is Some,
{
}

/// The category step, the last one: a known category completes the draft,
/// which is handed to the backend. A draft that still misses a field (which
/// the steps before never let happen) starts the user over at the command
/// prompt.
pub fn handle_enter_category(event_builder: EventBuilder, text: Option<&str>) -> (r: StepOutcome)
    ensures
        text is None ==> refused(r, ValidationError::MissingValue),
        text is Some && matching_category(text->0@, 0) is None ==> refused(
            r,
            ValidationError::UnknownCategory,
        ),
        text is Some && matching_category(text->0@, 0) is Some ==> ({
            let d = completed_draft(event_builder@, matching_category(text->0@, 0)->0);
            &&& built(d) is Some ==> (r matches StepOutcome::Call(BackendCall::CreateEvent(e))
                && built(d) == Some(e@))
            &&& built(d) is None ==> r matches StepOutcome::Advance(
                State::Authenticated(UseCase::EnterCommand),
                Reply::DialogueReset,
            )
        }),
{
    let t = match text {
        None => {
            return StepOutcome::Stay(Reply::Invalid(ValidationError::MissingValue));
        },
        Some(t) => t,
    };
    match Category::parse(t) {
        None => StepOutcome::Stay(Reply::Invalid(ValidationError::UnknownCategory)),
        Some(Category(category)) => {
            let mut event_builder = event_builder;
            event_builder.category(category);
            event_builder.organizer(ORGANIZER_PLACEHOLDER.to_owned());
            match event_builder.build() {
                Ok(event) => StepOutcome::Call(BackendCall::CreateEvent(event)),
                Err(_) => StepOutcome::Advance(
                    State::Authenticated(UseCase::EnterCommand),
                    Reply::DialogueReset,
                ),
            }
        },
    }
}

} // verus!
