use telegram_bot::command::event::parse_event_filters;
use telegram_bot::request_client::{date_string, decimal_string, event_filter_query};
use telegram_bot::schemas::event::{CalendarDate, Decimal, EventFilter};

fn words(ws: &[&str]) -> Vec<String> {
    ws.iter().map(|w| w.to_string()).collect()
}

#[test]
fn empty_filter() {
    let filter = parse_event_filters("");

    assert_eq!(filter, EventFilter::default())
}

#[test]
fn filter_with_price_range() {
    let filter = parse_event_filters("min_price=12 max_price=23");

    assert_eq!(
        filter,
        EventFilter {
            min_price: Some(Decimal::new(12, 0)),
            max_price: Some(Decimal::new(23, 0)),
            min_date: None,
            max_date: None,
            category: None,
            keywords: None
        }
    )
}

#[test]
fn filter_with_price_range_with_decimals() {
    let filter = parse_event_filters("min_price=12.34 max_price=23.54");

    assert_eq!(
        filter,
        EventFilter {
            min_price: Some(Decimal::new(1234, 2)),
            max_price: Some(Decimal::new(2354, 2)),
            min_date: None,
            max_date: None,
            category: None,
            keywords: None
        }
    )
}

#[test]
fn filter_with_date_range() {
    let filter = parse_event_filters("min_date=12-02-2024 max_date=23-02-2024");

    assert_eq!(
        filter,
        EventFilter {
            min_price: None,
            max_price: None,
            min_date: Some(CalendarDate::new(2024, 2, 12)),
            max_date: Some(CalendarDate::new(2024, 2, 23)),
            category: None,
            keywords: None
        }
    )
}

#[test]
fn filter_with_date_range_with_one_digit_month_and_day() {
    let filter = parse_event_filters("min_date=2-2-2024 max_date=3-2-2024");

    assert_eq!(
        filter,
        EventFilter {
            min_price: None,
            max_price: None,
            min_date: Some(CalendarDate::new(2024, 2, 2)),
            max_date: Some(CalendarDate::new(2024, 2, 3)),
            category: None,
            keywords: None
        }
    )
}

#[test]
fn filter_with_category() {
    let filter = parse_event_filters("category=Category");

    assert_eq!(
        filter,
        EventFilter {
            min_price: None,
            max_price: None,
            min_date: None,
            max_date: None,
            category: Some("Category".to_string()),
            keywords: None
        }
    )
}

#[test]
fn filter_keywords() {
    let filter = parse_event_filters("keywords=k1,k2,k3,k4");

    assert_eq!(
        filter,
        EventFilter {
            min_price: None,
            max_price: None,
            min_date: None,
            max_date: None,
            category: None,
            keywords: Some(words(&["k1", "k2", "k3", "k4"]))
        }
    )
}

#[test]
fn filter_full() {
    let filter = parse_event_filters(
        "min_price=12 max_price=23 category=Category keywords=k1,k2,k3,k4 min_date=2-2-2024 max_date=3-2-2024",
    );

    assert_eq!(
        filter,
        EventFilter {
            min_price: Some(Decimal::new(12, 0)),
            max_price: Some(Decimal::new(23, 0)),
            min_date: Some(CalendarDate::new(2024, 2, 2)),
            max_date: Some(CalendarDate::new(2024, 2, 3)),
            category: Some("Category".to_string()),
            keywords: Some(words(&["k1", "k2", "k3", "k4"]))
        }
    )
}

#[test]
fn filter_prices_and_category_only() {
    let filter = parse_event_filters("min_price=12 max_price=23 category=Music");

    assert_eq!(
        filter,
        EventFilter {
            min_price: Some(Decimal::new(12, 0)),
            max_price: Some(Decimal::new(23, 0)),
            min_date: None,
            max_date: None,
            category: Some("Music".to_string()),
            keywords: None
        }
    )
}

#[test]
fn filter_key_inside_a_word_is_ignored() {
    let filter = parse_event_filters("xmin_price=5 category=Arte");
    assert_eq!(filter.min_price, None);
    assert_eq!(filter.category, Some("Arte".to_string()));
}

#[test]
fn filter_first_well_formed_occurrence_wins() {
    let filter = parse_event_filters("min_price=abc min_price=7");
    assert_eq!(filter.min_price, Some(Decimal::new(7, 0)));
}

#[test]
fn filter_price_followed_by_letters_keeps_whole_part() {
    let filter = parse_event_filters("min_price=12.5x");
    assert_eq!(filter.min_price, Some(Decimal::new(12, 0)));
}

#[test]
fn filter_date_that_does_not_exist_is_dropped() {
    let filter = parse_event_filters("min_date=30-02-2024 max_date=29-02-2024");
    assert_eq!(filter.min_date, None);
    assert_eq!(filter.max_date, Some(CalendarDate::new(2024, 2, 29)));
}

#[test]
fn filter_date_with_five_digit_year_is_dropped() {
    let filter = parse_event_filters("min_date=1-1-20245");
    assert_eq!(filter.min_date, None);
}

#[test]
fn filter_keywords_stop_at_trailing_comma() {
    let filter = parse_event_filters("keywords=a,b, c");
    assert_eq!(filter.keywords, Some(words(&["a", "b"])));
}

#[test]
fn query_of_full_filter() {
    let filter = parse_event_filters(
        "min_price=12 max_price=23.5 category=Arte keywords=k1,k2 min_date=2-2-2024 max_date=3-12-2024",
    );
    let q = event_filter_query(&filter);
    let expected: Vec<(String, String)> = vec![
        ("precioPesosMax".to_string(), "23.5".to_string()),
        ("precioPesosMin".to_string(), "12".to_string()),
        ("fechaInicioMin".to_string(), "2024-02-02".to_string()),
        ("fechaInicioMax".to_string(), "2024-12-03".to_string()),
        ("categoria".to_string(), "Arte".to_string()),
        ("palabrasClave".to_string(), "k1+k2".to_string()),
    ];
    assert_eq!(q, expected);
}

#[test]
fn query_of_empty_filter_is_empty() {
    assert!(event_filter_query(&EventFilter::default()).is_empty());
}

#[test]
fn decimal_text_places_the_point() {
    assert_eq!(decimal_string(Decimal::new(1234, 2)), "12.34");
    assert_eq!(decimal_string(Decimal::new(5, 2)), "0.05");
    assert_eq!(decimal_string(Decimal::new(0, 0)), "0");
    assert_eq!(decimal_string(Decimal::new(120, 1)), "12.0");
}

#[test]
fn date_text_pads_fields() {
    assert_eq!(date_string(CalendarDate::new(2024, 2, 3)), "2024-02-03");
    assert_eq!(date_string(CalendarDate::new(987, 11, 30)), "0987-11-30");
}

#[test]
fn filter_words_take_non_ascii_letters() {
    let filter = parse_event_filters("category=Música keywords=año,niño");
    assert_eq!(filter.category, Some("Música".to_string()));
    assert_eq!(filter.keywords, Some(words(&["año", "niño"])));
}

#[test]
fn filter_non_ascii_punctuation_ends_words() {
    let filter = parse_event_filters("¿category=Arte—Moda");
    assert_eq!(filter.category, Some("Arte".to_string()));
}

#[test]
fn filter_dates_follow_leap_years() {
    let filter = parse_event_filters("min_date=29-02-2000 max_date=29-02-1900");
    assert_eq!(filter.min_date, Some(CalendarDate::new(2000, 2, 29)));
    assert_eq!(filter.max_date, None);
    let filter = parse_event_filters("min_date=31-04-2024 max_date=31-12-2024");
    assert_eq!(filter.min_date, None);
    assert_eq!(filter.max_date, Some(CalendarDate::new(2024, 12, 31)));
}
