//! Events, the draft that accumulates one during the creation dialogue, and
//! the plain value types that stand for prices and instants.
use vstd::prelude::*;

verus! {

/// A non-negative decimal number: `units / 10^scale`.
#[derive(Clone, Copy, Debug, PartialEq, Eq, Structural)]
pub struct Decimal {
    pub units: u64,
    pub scale: u32,
}

impl Decimal {
    pub fn new(units: u64, scale: u32) -> (r: Decimal)
        ensures
            r.units == units,
            r.scale == scale,
    {
        Decimal { units, scale }
    }
}

/// A wall-clock instant without a time zone.
#[derive(Clone, Copy, Debug, PartialEq, Eq, Structural)]
pub struct LocalDateTime {
    pub year: i32,
    pub month: u32,
    pub day: u32,
    pub hour: u32,
    pub minute: u32,
    pub second: u32,
    pub nanosecond: u32,
}

/// Chronological order of two instants: field by field, most significant
/// first.
pub open spec fn is_before(a: LocalDateTime, b: LocalDateTime) -> bool {
    if a.year != b.year {
        a.year < b.year
    } else if a.month != b.month {
        a.month < b.month
    } else if a.day != b.day {
        a.day < b.day
    } else if a.hour != b.hour {
        a.hour < b.hour
    } else if a.minute != b.minute {
        a.minute < b.minute
    } else if a.second != b.second {
        a.second < b.second
    } else {
        a.nanosecond < b.nanosecond
    }
}

impl LocalDateTime {
    /// Whether `self` lies strictly before `other`.
    pub fn lt(&self, other: &LocalDateTime) -> (r: bool)
        ensures
            r == is_before(*self, *other),
    {
        if self.year != other.year {
            self.year < other.year
        } else if self.month != other.month {
            self.month < other.month
        } else if self.day != other.day {
            self.day < other.day
        } else if self.hour != other.hour {
            self.hour < other.hour
        } else if self.minute != other.minute {
            self.minute < other.minute
        } else if self.second != other.second {
            self.second < other.second
        } else {
            self.nanosecond < other.nanosecond
        }
    }
}

/// A day of the proleptic Gregorian calendar.
#[derive(Clone, Copy, Debug, PartialEq, Eq, Structural)]
pub struct CalendarDate {
    pub year: i32,
    pub month: u32,
    pub day: u32,
}

impl CalendarDate {
    pub fn new(year: i32, month: u32, day: u32) -> (r: CalendarDate)
        ensures
            r == (CalendarDate { year, month, day }),
    {
        CalendarDate { year, month, day }
    }
}

/// Optional conditions on the events to list: price and date ranges, a
/// category, and keywords.
#[derive(Debug, Clone, PartialEq, Default)]
pub struct EventFilter {
    pub max_price: Option<Decimal>,
    pub min_price: Option<Decimal>,
    pub max_date: Option<CalendarDate>,
    pub min_date: Option<CalendarDate>,
    pub category: Option<String>,
    pub keywords: Option<Vec<String>>,
}

pub struct EventFilterView {
    pub max_price: Option<Decimal>,
    pub min_price: Option<Decimal>,
    pub max_date: Option<CalendarDate>,
    pub min_date: Option<CalendarDate>,
    pub category: Option<Seq<char>>,
    pub keywords: Option<Seq<Seq<char>>>,
}

/// The texts of a list of strings.
pub open spec fn texts_view(v: Seq<String>) -> Seq<Seq<char>> {
    v.map_values(|s: String| s@)
}

impl View for EventFilter {
    type V = EventFilterView;

    open spec fn view(&self) -> EventFilterView {
        EventFilterView {
            max_price: self.max_price,
            min_price: self.min_price,
            max_date: self.max_date,
            min_date: self.min_date,
            category: text_view(self.category),
            keywords: match self.keywords {
                Some(k) => Some(texts_view(k@)),
                None => None,
            },
        }
    }
}

/// An event, complete and ready to be submitted.
#[derive(Debug)]
pub struct Event {
    pub title: String,
    pub description: String,
    pub start_date_time: LocalDateTime,
    pub duration_minutes: u32,
    pub location: String,
    pub max_capacity: u32,
    pub price: Decimal,
    pub category: String,
    pub organizer: String,
}

pub struct EventView {
    pub title: Seq<char>,
    pub description: Seq<char>,
    pub start_date_time: LocalDateTime,
    pub duration_minutes: u32,
    pub location: Seq<char>,
    pub max_capacity: u32,
    pub price: Decimal,
    pub category: Seq<char>,
    pub organizer: Seq<char>,
}

impl View for Event {
    type V = EventView;

    open spec fn view(&self) -> EventView {
        EventView {
            title: self.title@,
            description: self.description@,
            start_date_time: self.start_date_time,
            duration_minutes: self.duration_minutes,
            location: self.location@,
            max_capacity: self.max_capacity,
            price: self.price,
            category: self.category@,
            organizer: self.organizer@,
        }
    }
}

/// The fields of an event gathered so far.
#[derive(Clone, Debug)]
pub struct EventBuilder {
    title: Option<String>,
    description: Option<String>,
    start_date_time: Option<LocalDateTime>,
    duration_minutes: Option<u32>,
    location: Option<String>,
    max_capacity: Option<u32>,
    price: Option<Decimal>,
    category: Option<String>,
    organizer: Option<String>,
}

pub struct EventBuilderView {
    pub title: Option<Seq<char>>,
    pub description: Option<Seq<char>>,
    pub start_date_time: Option<LocalDateTime>,
    pub duration_minutes: Option<u32>,
    pub location: Option<Seq<char>>,
    pub max_capacity: Option<u32>,
    pub price: Option<Decimal>,
    pub category: Option<Seq<char>>,
    pub organizer: Option<Seq<char>>,
}

pub open spec fn text_view(s: Option<String>) -> Option<Seq<char>> {
    match s {
        Some(t) => Some(t@),
        None => None,
    }
}

impl View for EventBuilder {
    type V = EventBuilderView;

    closed spec fn view(&self) -> EventBuilderView {
        EventBuilderView {
            title: text_view(self.title),
            description: text_view(self.description),
            start_date_time: self.start_date_time,
            duration_minutes: self.duration_minutes,
            location: text_view(self.location),
            max_capacity: self.max_capacity,
            price: self.price,
            category: text_view(self.category),
            organizer: text_view(self.organizer),
        }
    }
}

/// A draft with no field set.
pub open spec fn empty_draft() -> EventBuilderView {
    EventBuilderView {
        title: None,
        description: None,
        start_date_time: None,
        duration_minutes: None,
        location: None,
        max_capacity: None,
        price: None,
        category: None,
        organizer: None,
    }
}

pub open spec fn set_title(d: EventBuilderView, v: Seq<char>) -> EventBuilderView {
    EventBuilderView { title: Some(v), ..d }
}

pub open spec fn set_description(d: EventBuilderView, v: Seq<char>) -> EventBuilderView {
    EventBuilderView { description: Some(v), ..d }
}

pub open spec fn set_start_date_time(d: EventBuilderView, v: LocalDateTime) -> EventBuilderView {
    EventBuilderView { start_date_time: Some(v), ..d }
}

pub open spec fn set_duration_minutes(d: EventBuilderView, v: u32) -> EventBuilderView {
    EventBuilderView { duration_minutes: Some(v), ..d }
}

pub open spec fn set_location(d: EventBuilderView, v: Seq<char>) -> EventBuilderView {
    EventBuilderView { location: Some(v), ..d }
}

pub open spec fn set_max_capacity(d: EventBuilderView, v: u32) -> EventBuilderView {
    EventBuilderView { max_capacity: Some(v), ..d }
}

pub open spec fn set_price(d: EventBuilderView, v: Decimal) -> EventBuilderView {
    EventBuilderView { price: Some(v), ..d }
}

pub open spec fn set_category(d: EventBuilderView, v: Seq<char>) -> EventBuilderView {
    EventBuilderView { category: Some(v), ..d }
}

pub open spec fn set_organizer(d: EventBuilderView, v: Seq<char>) -> EventBuilderView {
    EventBuilderView { organizer: Some(v), ..d }
}

/// The event that a draft finalizes into, once every field is set.
pub open spec fn built(d: EventBuilderView) -> Option<EventView> {
    if d.title is Some && d.description is Some && d.start_date_time is Some
        && d.duration_minutes is Some && d.location is Some && d.max_capacity is Some
        && d.price is Some && d.category is Some && d.organizer is Some {
        Some(
            EventView {
                title: d.title->0,
                description: d.description->0,
                start_date_time: d.start_date_time->0,
                duration_minutes: d.duration_minutes->0,
                location: d.location->0,
                max_capacity: d.max_capacity->0,
                price: d.price->0,
                category: d.category->0,
                organizer: d.organizer->0,
            },
        )
    } else {
        None
    }
}

/// A draft filled field by field in the order of the creation dialogue, and
/// then given its organizer, finalizes into an event that holds exactly the
/// value entered for each field.
pub proof fn lemma_draft_round_trip(
    title: Seq<char>,
    description: Seq<char>,
    start_date_time: LocalDateTime,
    duration_minutes: u32,
    location: Seq<char>,
    max_capacity: u32,
    price: Decimal,
    category: Seq<char>,
    organizer: Seq<char>,
)
    ensures
        built(
            set_organizer(
                set_category(
                    set_price(
                        set_max_capacity(
                            set_location(
                                set_duration_minutes(
                                    set_start_date_time(
                                        set_description(set_title(empty_draft(), title), description),
                                        start_date_time,
                                    ),
                                    duration_minutes,
                                ),
                                location,
                            ),
                            max_capacity,
                        ),
                        price,
                    ),
                    category,
                ),
                organizer,
            ),
        ) == Some(
            EventView {
                title,
                description,
                start_date_time,
                duration_minutes,
                location,
                max_capacity,
                price,
                category,
                organizer,
            },
        ),
{
}

/// Why a draft could not be finalized: the first field still missing.
#[derive(Debug)]
pub enum EventBuilderError {
    UninitializedField(String),
}

fn missing(field: &str) -> (r: Result<Event, EventBuilderError>)
    ensures
        r is Err,
{
    Err(EventBuilderError::UninitializedField(field.to_owned()))
}

fn clone_text(s: &String) -> (r: String)
    ensures
        r@ == s@,
{
    s.clone()
}

impl EventBuilder {
    /// A draft with no field set.
    pub fn new() -> (r: EventBuilder)
        ensures
            r@ == empty_draft(),
    {
        EventBuilder {
            title: None,
            description: None,
            start_date_time: None,
            duration_minutes: None,
            location: None,
            max_capacity: None,
            price: None,
            category: None,
            organizer: None,
        }
    }

    pub fn title(&mut self, v: String)
        ensures
            final(self)@ == set_title(old(self)@, v@),
    {
        self.title = Some(v);
    }

    pub fn description(&mut self, v: String)
        ensures
            final(self)@ == set_description(old(self)@, v@),
    {
        self.description = Some(v);
    }

    pub fn start_date_time(&mut self, v: LocalDateTime)
        ensures
            final(self)@ == set_start_date_time(old(self)@, v),
    {
        self.start_date_time = Some(v);
    }

    pub fn duration_minutes(&mut self, v: u32)
        ensures
            final(self)@ == set_duration_minutes(old(self)@, v),
    {
        self.duration_minutes = Some(v);
    }

    pub fn location(&mut self, v: String)
        ensures
            final(self)@ == set_location(old(self)@, v@),
    {
        self.location = Some(v);
    }

    pub fn max_capacity(&mut self, v: u32)
        ensures
            final(self)@ == set_max_capacity(old(self)@, v),
    {
        self.max_capacity = Some(v);
    }

    pub fn price(&mut self, v: Decimal)
        ensures
            final(self)@ == set_price(old(self)@, v),
    {
        self.price = Some(v);
    }

    pub fn category(&mut self, v: String)
        ensures
            final(self)@ == set_category(old(self)@, v@),
    {
        self.category = Some(v);
    }

    pub fn organizer(&mut self, v: String)
        ensures
            final(self)@ == set_organizer(old(self)@, v@),
    {
        self.organizer = Some(v);
    }

    /// Finalizes the draft: the event holds exactly the values that were
    /// set, and fails when any field is still missing.
    pub fn build(&self) -> (r: Result<Event, EventBuilderError>)
        ensures
            r is Ok <==> built(self@) is Some,
            r matches Ok(e) ==> built(self@) == Some(e@),
    {
        let title = match &self.title { Some(t) => clone_text(t), None => { return missing("title"); } };
        let description = match &self.description { Some(t) => clone_text(t), None => { return missing("description"); } };
        let start_date_time = match self.start_date_time { Some(t) => t, None => { return missing("start_date_time"); } };
        let duration_minutes = match self.duration_minutes { Some(t) => t, None => { return missing("duration_minutes"); } };
        let location = match &self.location { Some(t) => clone_text(t), None => { return missing("location"); } };
        let max_capacity = match self.max_capacity { Some(t) => t, None => { return missing("max_capacity"); } };
        let price = match self.price { Some(t) => t, None => { return missing("price"); } };
        let category = match &self.category { Some(t) => clone_text(t), None => { return missing("category"); } };
        let organizer = match &self.organizer { Some(t) => clone_text(t), None => { return missing("organizer"); } };
        Ok(Event {
            title,
            description,
            start_date_time,
            duration_minutes,
            location,
            max_capacity,
            price,
            category,
            organizer,
        })
    }
}

} // verus!
