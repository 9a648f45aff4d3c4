use telegram_bot::callback::{cancel_inscription_callback, create_event_callback, parse_callback, CallbackAction};
use telegram_bot::schemas::event::LocalDateTime;
use telegram_bot::schemas::inscription::{all_inscriptions, Inscription, InscriptionState, WaitlistInscription, WaitlistUser};

fn when(day: u32) -> LocalDateTime {
    LocalDateTime { year: 2025, month: 1, day, hour: 0, minute: 0, second: 0, nanosecond: 0 }
}

#[test]
fn callback_prefixes_name_actions() {
    assert!(matches!(parse_callback("event::close::42"), Some(CallbackAction::CloseEvent(id)) if id == "42"));
    assert!(matches!(parse_callback("event::open::7"), Some(CallbackAction::OpenEvent(id)) if id == "7"));
    assert!(matches!(parse_callback("inscription::cancel::e1"), Some(CallbackAction::CancelInscription(id)) if id == "e1"));
    assert!(matches!(parse_callback("inscription::enrol::e2"), Some(CallbackAction::EnrolInscription(id)) if id == "e2"));
    assert!(matches!(parse_callback("inscription::manage::e3"), Some(CallbackAction::SeeInscriptions(id)) if id == "e3"));
    assert!(parse_callback("event::delete::1").is_none());
    assert!(parse_callback("").is_none());
}

#[test]
fn buttons_round_trip() {
    let close = create_event_callback("abc", true);
    assert_eq!(close, "event::close::abc");
    assert!(matches!(parse_callback(&close), Some(CallbackAction::CloseEvent(id)) if id == "abc"));
    let open = create_event_callback("abc", false);
    assert_eq!(open, "event::open::abc");
    let cancel = cancel_inscription_callback("ev9");
    assert!(matches!(parse_callback(&cancel), Some(CallbackAction::CancelInscription(id)) if id == "ev9"));
}

#[test]
fn waitlist_joins_as_pending() {
    let confirmed = vec![Inscription {
        id: "i1".to_string(),
        state: InscriptionState::Confirmed,
        email: "a@b.com".to_string(),
        date: when(1),
        event_id: "ev".to_string(),
    }];
    let waitlist = vec![
        WaitlistInscription {
            id: "w1".to_string(),
            user: WaitlistUser { id: "u1".to_string(), email: "c@d.com".to_string() },
            entry_date: when(2),
        },
        WaitlistInscription {
            id: "w2".to_string(),
            user: WaitlistUser { id: "u2".to_string(), email: "e@f.com".to_string() },
            entry_date: when(3),
        },
    ];
    let all = all_inscriptions(confirmed, waitlist, "ev");
    assert_eq!(all.len(), 3);
    assert_eq!(all[0].id, "i1");
    assert_eq!(all[0].state, InscriptionState::Confirmed);
    assert_eq!(all[1].id, "w1");
    assert_eq!(all[1].state, InscriptionState::Pending);
    assert_eq!(all[1].email, "c@d.com");
    assert_eq!(all[1].date, when(2));
    assert_eq!(all[1].event_id, "ev");
    assert_eq!(all[2].id, "w2");
    assert_eq!(all[2].email, "e@f.com");
    assert!(all[0].state.is_cancellable());
    assert!(!all[1].state.is_cancellable());
}

#[test]
fn no_inscriptions_at_all() {
    assert!(all_inscriptions(Vec::new(), Vec::new(), "ev").is_empty());
}
