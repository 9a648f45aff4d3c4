use telegram_bot::command::{route, Command, Route};
use telegram_bot::dialogue::event_creation_dialogue::{
    date_step, get_price_input_data, get_string_input_data, handle_create_event,
    handle_enter_category, handle_enter_date, handle_enter_description, handle_enter_duration,
    handle_enter_location, handle_enter_max_capacity, handle_enter_price, handle_enter_title,
    validate_range, Category, Date, EventCreationStep,
};
use telegram_bot::dialogue::registration_dialogue::{
    check_user_auth_selection, handle_confirm_password, handle_login_email,
    handle_login_password, handle_register_email, handle_register_password, State as RegisterState,
};
use telegram_bot::dialogue::{
    after_call, error_reply, greetings, reset, BackendCall, Reply, State, StepOutcome, UseCase,
    ValidationError,
};
use telegram_bot::request_client::RequestClientError;
use telegram_bot::schemas::event::{Decimal, EventBuilder, EventFilter, LocalDateTime};

fn at(year: i32, month: u32, day: u32, hour: u32, minute: u32) -> LocalDateTime {
    LocalDateTime { year, month, day, hour, minute, second: 0, nanosecond: 0 }
}

fn next_builder(outcome: StepOutcome) -> (EventCreationStep, Reply) {
    match outcome {
        StepOutcome::Advance(State::Authenticated(UseCase::EventCreation(step)), reply) => (step, reply),
        other => panic!("expected a creation step, got {:?}", other),
    }
}

fn refusal(outcome: StepOutcome) -> ValidationError {
    match outcome {
        StepOutcome::Stay(Reply::Invalid(e)) => e,
        other => panic!("expected a refusal, got {:?}", other),
    }
}

#[test]
fn register_email_rejects_malformed_input() {
    let r = handle_register_email(Some("not-an-email")).unwrap();
    assert!(matches!(r, StepOutcome::Stay(Reply::InvalidEmail)));
    let r = handle_register_email(None).unwrap();
    assert!(matches!(r, StepOutcome::Stay(Reply::InvalidEmail)));
}

#[test]
fn register_email_moves_on_with_the_email() {
    match handle_register_email(Some("user@example.com")).unwrap() {
        StepOutcome::Advance(State::Registration(RegisterState::RegisterPassword { email }), Reply::AskPassword) => {
            assert_eq!(email, "user@example.com")
        }
        other => panic!("unexpected {:?}", other),
    }
}

#[test]
fn login_email_moves_to_login_password() {
    match handle_login_email(Some("a@b.com")).unwrap() {
        StepOutcome::Advance(State::Registration(RegisterState::LoginPassword { email }), Reply::AskPassword) => {
            assert_eq!(email, "a@b.com")
        }
        other => panic!("unexpected {:?}", other),
    }
    assert!(matches!(handle_login_email(Some("a b@c.d")).unwrap(), StepOutcome::Stay(Reply::InvalidEmail)));
}

#[test]
fn auth_choice_is_case_insensitive() {
    assert!(matches!(
        check_user_auth_selection(Some("A")),
        StepOutcome::Advance(State::Registration(RegisterState::RegisterEmail), Reply::AskRegisterEmail)
    ));
    assert!(matches!(
        check_user_auth_selection(Some("b")),
        StepOutcome::Advance(State::Registration(RegisterState::LoginEmail), Reply::AskLoginEmail)
    ));
    assert!(matches!(check_user_auth_selection(Some("c")), StepOutcome::Stay(Reply::InvalidAuthChoice)));
    assert!(matches!(check_user_auth_selection(None), StepOutcome::Stay(Reply::InvalidAuthChoice)));
}

#[test]
fn register_password_needs_letter_digit_and_length() {
    assert!(matches!(
        handle_register_password("a@b.com".to_string(), Some("short1")).unwrap(),
        StepOutcome::Stay(Reply::InvalidPassword)
    ));
    assert!(matches!(
        handle_register_password("a@b.com".to_string(), Some("onlyletters")).unwrap(),
        StepOutcome::Stay(Reply::InvalidPassword)
    ));
    match handle_register_password("a@b.com".to_string(), Some("Secret123")).unwrap() {
        StepOutcome::Advance(
            State::Registration(RegisterState::ConfirmPassword { email, password }),
            Reply::AskPasswordConfirmation,
        ) => {
            assert_eq!(email, "a@b.com");
            assert_eq!(password, "Secret123");
        }
        other => panic!("unexpected {:?}", other),
    }
}

#[test]
fn confirm_password_matching_registers_and_authenticates() {
    let outcome = handle_confirm_password("a@b.com".to_string(), "Secret123".to_string(), Some("Secret123"));
    let call = match outcome {
        StepOutcome::Call(call) => call,
        other => panic!("unexpected {:?}", other),
    };
    match &call {
        BackendCall::Register(u) => {
            assert_eq!(u.email, "a@b.com");
            assert_eq!(u.password, "Secret123");
            assert_eq!(u.user_type.as_deref(), Some("USUARIO"));
        }
        other => panic!("unexpected {:?}", other),
    }
    assert!(matches!(
        after_call(&call, &Ok(())),
        StepOutcome::Advance(State::Authenticated(UseCase::EnterCommand), Reply::AccountCreated)
    ));
}

#[test]
fn confirm_password_mismatch_keeps_state() {
    let outcome = handle_confirm_password("a@b.com".to_string(), "Secret123".to_string(), Some("wrong"));
    assert!(matches!(outcome, StepOutcome::Stay(Reply::PasswordMismatch)));
}

#[test]
fn login_password_asks_backend_and_failure_stays() {
    let call = match handle_login_password("a@b.com".to_string(), Some("pw")) {
        StepOutcome::Call(call) => call,
        other => panic!("unexpected {:?}", other),
    };
    match &call {
        BackendCall::Login(u) => {
            assert_eq!(u.email, "a@b.com");
            assert_eq!(u.password, "pw");
            assert!(u.user_type.is_none());
        }
        other => panic!("unexpected {:?}", other),
    }
    assert!(matches!(after_call(&call, &Err(RequestClientError::Status(401))), StepOutcome::Stay(Reply::LoginFailed)));
    assert!(matches!(
        after_call(&call, &Ok(())),
        StepOutcome::Advance(State::Authenticated(UseCase::EnterCommand), Reply::LoggedIn)
    ));
}

#[test]
fn failed_registration_reports_error() {
    let call = match handle_confirm_password("a@b.com".to_string(), "pw".to_string(), Some("pw")) {
        StepOutcome::Call(call) => call,
        other => panic!("unexpected {:?}", other),
    };
    assert!(matches!(after_call(&call, &Err(RequestClientError::Status(403))), StepOutcome::Stay(Reply::NeedLogin)));
    assert!(matches!(after_call(&call, &Err(RequestClientError::TimeOut)), StepOutcome::Stay(Reply::CommandFailed)));
}

#[test]
fn forbidden_means_log_in() {
    assert_eq!(error_reply(&RequestClientError::Status(403)), Reply::NeedLogin);
    assert_eq!(error_reply(&RequestClientError::Status(500)), Reply::CommandFailed);
    assert_eq!(error_reply(&RequestClientError::JsonParse("x".to_string())), Reply::CommandFailed);
}

#[test]
fn greeting_and_reset_targets() {
    assert!(matches!(greetings(), StepOutcome::Advance(State::Registration(RegisterState::CheckUser), Reply::Greeting)));
    assert!(matches!(reset(true), StepOutcome::Advance(State::Authenticated(UseCase::EnterCommand), Reply::Welcome)));
    assert!(matches!(
        reset(false),
        StepOutcome::Advance(State::Registration(RegisterState::CheckUser), Reply::AskAuthChoice)
    ));
}

#[test]
fn routing_by_state_and_command() {
    let idle = State::Authenticated(UseCase::EnterCommand);
    let help = Command::Help;
    let list = Command::ListEvents(EventFilter::default());
    assert_eq!(route(&idle, Some(&help)), Route::Command);
    assert_eq!(route(&idle, Some(&list)), Route::Command);
    assert_eq!(route(&idle, None), Route::Ignore);
    assert_eq!(route(&State::Start, Some(&Command::Reset)), Route::Reset);
    assert_eq!(route(&State::Start, None), Route::Greeting);
    assert_eq!(route(&State::Registration(RegisterState::RegisterEmail), Some(&help)), Route::RegistrationStep);
    let creating = State::Authenticated(UseCase::EventCreation(EventCreationStep::EnterTitle));
    assert_eq!(route(&creating, None), Route::EventCreationStep);
    assert_eq!(route(&creating, Some(&Command::Reset)), Route::Reset);
}

#[test]
fn capacity_rejects_negative_and_text() {
    assert_eq!(refusal(handle_enter_max_capacity(EventBuilder::new(), Some("-1"))), ValidationError::NotAnInteger);
    assert_eq!(refusal(handle_enter_max_capacity(EventBuilder::new(), Some("many"))), ValidationError::NotAnInteger);
    let (step, reply) = next_builder(handle_enter_max_capacity(EventBuilder::new(), Some("50")));
    assert_eq!(reply, Reply::AskPrice);
    assert!(matches!(step, EventCreationStep::EnterPrice { .. }));
}

#[test]
fn full_creation_keeps_every_value() {
    let (step, reply) = next_builder(handle_create_event());
    assert_eq!(reply, Reply::AskTitle);
    assert!(matches!(step, EventCreationStep::EnterTitle));

    let (step, _) = next_builder(handle_enter_title(Some("Concierto")));
    let b = match step { EventCreationStep::EnterDescription { event_builder } => event_builder, s => panic!("{:?}", s) };
    let (step, _) = next_builder(handle_enter_description(b, Some("Un concierto al aire libre")));
    let b = match step { EventCreationStep::EnterDate { event_builder } => event_builder, s => panic!("{:?}", s) };
    let (step, _) = next_builder(handle_enter_date(b, Some("01/02/2999 20:30")));
    let b = match step { EventCreationStep::EnterDuration { event_builder } => event_builder, s => panic!("{:?}", s) };
    let (step, _) = next_builder(handle_enter_duration(b, Some("90")));
    let b = match step { EventCreationStep::EnterLocation { event_builder } => event_builder, s => panic!("{:?}", s) };
    let (step, _) = next_builder(handle_enter_location(b, Some("Parque Centenario")));
    let b = match step { EventCreationStep::EnterMaxCapacity { event_builder } => event_builder, s => panic!("{:?}", s) };
    let (step, _) = next_builder(handle_enter_max_capacity(b, Some("50")));
    let b = match step { EventCreationStep::EnterPrice { event_builder } => event_builder, s => panic!("{:?}", s) };
    let (step, _) = next_builder(handle_enter_price(b, Some("12.50")));
    let b = match step { EventCreationStep::EnterCategory { event_builder } => event_builder, s => panic!("{:?}", s) };
    let event = match handle_enter_category(b, Some("MUSICA")) {
        StepOutcome::Call(BackendCall::CreateEvent(e)) => e,
        other => panic!("unexpected {:?}", other),
    };
    assert_eq!(event.title, "Concierto");
    assert_eq!(event.description, "Un concierto al aire libre");
    assert_eq!(event.start_date_time, at(2999, 2, 1, 20, 30));
    assert_eq!(event.duration_minutes, 90);
    assert_eq!(event.location, "Parque Centenario");
    assert_eq!(event.max_capacity, 50);
    assert_eq!(event.price, Decimal::new(1250, 2));
    assert_eq!(event.category, "Musica");
    assert_eq!(event.organizer, "placeholder");
    assert!(matches!(
        after_call(&BackendCall::CreateEvent(event), &Ok(())),
        StepOutcome::Advance(State::Authenticated(UseCase::EnterCommand), Reply::EventCreated)
    ));
}

#[test]
fn incomplete_draft_at_last_step_resets() {
    assert!(matches!(
        handle_enter_category(EventBuilder::new(), Some("Arte")),
        StepOutcome::Advance(State::Authenticated(UseCase::EnterCommand), Reply::DialogueReset)
    ));
    assert_eq!(refusal(handle_enter_category(EventBuilder::new(), Some("Music"))), ValidationError::UnknownCategory);
    assert_eq!(refusal(handle_enter_category(EventBuilder::new(), None)), ValidationError::MissingValue);
}

#[test]
fn text_fields_are_bounded_in_bytes() {
    let long = "x".repeat(101);
    assert_eq!(refusal(handle_enter_title(Some(&long))), ValidationError::TooLong(100));
    assert_eq!(refusal(handle_enter_description(EventBuilder::new(), Some("corta"))), ValidationError::TooShort(10));
    assert_eq!(refusal(handle_enter_location(EventBuilder::new(), Some("ab"))), ValidationError::TooShort(3));
    assert_eq!(refusal(handle_enter_title(None)), ValidationError::MissingValue);
    // five two-byte characters are ten bytes
    assert!(get_string_input_data(Some("ñññññ"), 10, 10).is_ok());
    assert_eq!(get_string_input_data(Some("ñññññ"), 0, 9).unwrap_err(), ValidationError::TooLong(9));
}

#[test]
fn duration_needs_at_least_a_minute() {
    assert_eq!(refusal(handle_enter_duration(EventBuilder::new(), Some("0"))), ValidationError::BelowMinimum(1));
    assert!(next_builder(handle_enter_duration(EventBuilder::new(), Some("+5"))).1 == Reply::AskLocation);
    assert_eq!(refusal(handle_enter_duration(EventBuilder::new(), Some("4294967296"))), ValidationError::NotAnInteger);
}

#[test]
fn range_checks_lower_bound_first() {
    assert_eq!(validate_range(5, Some(1), Some(10)), Ok(5));
    assert_eq!(validate_range(0, Some(1), Some(10)), Err(ValidationError::BelowMinimum(1)));
    assert_eq!(validate_range(11, Some(1), Some(10)), Err(ValidationError::AboveMaximum(10)));
    assert_eq!(validate_range(11, None, None), Ok(11));
}

#[test]
fn price_rules() {
    assert_eq!(get_price_input_data(Some("12.345")), Err(ValidationError::TooManyDecimals(2)));
    assert_eq!(get_price_input_data(Some("abc")), Err(ValidationError::NotANumber));
    assert_eq!(get_price_input_data(Some("-5")), Err(ValidationError::BelowMinimum(0)));
    assert_eq!(get_price_input_data(Some("0")), Ok(Decimal::new(0, 0)));
    assert_eq!(get_price_input_data(Some("-0")), Ok(Decimal::new(0, 0)));
    assert_eq!(get_price_input_data(Some("7.5")), Ok(Decimal::new(75, 1)));
    assert_eq!(get_price_input_data(Some(".5")), Ok(Decimal::new(5, 1)));
    assert_eq!(get_price_input_data(Some("1.2.3")), Err(ValidationError::NotANumber));
    assert_eq!(get_price_input_data(None), Err(ValidationError::MissingValue));
}

#[test]
fn dates_must_parse_and_lie_ahead() {
    let now = at(2025, 6, 15, 12, 0);
    assert_eq!(refusal(date_step(EventBuilder::new(), Some("14/06/2025 23:59"), now)), ValidationError::PastDate);
    assert_eq!(refusal(date_step(EventBuilder::new(), Some("2025-06-16"), now)), ValidationError::BadDate);
    assert_eq!(next_builder(date_step(EventBuilder::new(), Some("15/06/2025 12:00"), now)).1, Reply::AskDuration);
    assert_eq!(refusal(handle_enter_date(EventBuilder::new(), Some("31/12/2000 10:00"))), ValidationError::PastDate);
    assert_eq!(refusal(handle_enter_date(EventBuilder::new(), Some("31/02/2999 10:00"))), ValidationError::BadDate);
    assert_eq!(Date::parse("5/3/2030 7:05"), Some(Date(at(2030, 3, 5, 7, 5))));
}

#[test]
fn categories_ignore_ascii_case() {
    assert_eq!(Category::parse("tecnologia").map(|c| c.0), Some("Tecnologia".to_string()));
    assert_eq!(Category::parse("SALUD").map(|c| c.0), Some("Salud".to_string()));
    assert!(Category::parse("Música").is_none());
    assert!(Category::parse("").is_none());
}
