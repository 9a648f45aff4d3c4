//! The per-chat dialogue: which input each chat owes next, and what every
//! input does to it.
use vstd::prelude::*;

use crate::request_client::RequestClientError;
use crate::schemas::event::Event;
use crate::schemas::user::UserOut;

pub mod event_creation_dialogue;
pub mod registration_dialogue;

use event_creation_dialogue::EventCreationStep;
use registration_dialogue::State as RegisterState;

verus! {

/// Where a chat stands in its conversation.
#[derive(Clone, Debug, Default)]
pub enum State {
    /// First contact: nothing said yet.
    #[default]
    Start,
    /// The user is registering or logging in.
    Registration(RegisterState),
    /// The user is logged in and can use the app.
    Authenticated(UseCase),
}

/// What a logged-in user is doing.
#[derive(Clone, Debug)]
pub enum UseCase {
    /// The user can enter a new command.
    EnterCommand,
    /// The user is giving, one field at a time, the data of a new event.
    EventCreation(EventCreationStep),
}

/// Why an input for a step of event creation was refused.
#[derive(Clone, Copy, Debug, PartialEq, Eq, Structural)]
pub enum ValidationError {
    /// The message carried no text.
    MissingValue,
    /// Longer than this many bytes.
    TooLong(u32),
    /// Shorter than this many bytes.
    TooShort(u32),
    /// Not a whole number that fits the field.
    NotAnInteger,
    /// Below this minimum.
    BelowMinimum(u32),
    /// Above this maximum.
    AboveMaximum(u32),
    /// More than this many digits after the decimal point.
    TooManyDecimals(u32),
    /// Not a decimal number.
    NotANumber,
    /// Not a date in the day/month/year hour:minute layout.
    BadDate,
    /// A date that has already passed.
    PastDate,
    /// Not one of the known categories.
    UnknownCategory,
}

/// The message a chat receives after an input.
#[derive(Clone, Copy, Debug, PartialEq, Eq, Structural)]
pub enum Reply {
    Greeting,
    AskAuthChoice,
    InvalidAuthChoice,
    AskRegisterEmail,
    AskLoginEmail,
    InvalidEmail,
    AskPassword,
    InvalidPassword,
    AskPasswordConfirmation,
    PasswordMismatch,
    AccountCreated,
    LoggedIn,
    LoginFailed,
    Welcome,
    AskTitle,
    AskDescription,
    AskStartDate,
    AskDuration,
    AskLocation,
    AskMaxCapacity,
    AskPrice,
    AskCategory,
    EventCreated,
    Invalid(ValidationError),
    /// The command needs a logged-in user.
    NeedLogin,
    /// The command failed; the user may try again.
    CommandFailed,
    /// The dialogue held data it could not use and started over.
    DialogueReset,
}

/// A backend call that a step asks for before it can complete.
#[derive(Debug)]
pub enum BackendCall {
    Register(UserOut),
    Login(UserOut),
    CreateEvent(Event),
}

/// What an input does to a chat's dialogue.
#[derive(Debug)]
pub enum StepOutcome {
    /// Move to the new state, then send the reply.
    Advance(State, Reply),
    /// Keep the state, with all its data, and send the reply.
    Stay(Reply),
    /// Make the backend call; `after_call` then decides with its result.
    Call(BackendCall),
}

/// The reply for a failed backend call: a refusal (HTTP 403) means the
/// session is not valid and asks the user to log in; anything else is a
/// generic failure.
pub open spec fn reply_for_error(err: RequestClientError) -> Reply {
    if err matches RequestClientError::Status(s) && s == 403 {
        Reply::NeedLogin
    } else {
        Reply::CommandFailed
    }
}

/// The reply for a failed backend call.
pub fn error_reply(err: &RequestClientError) -> (r: Reply)
    ensures
        r == reply_for_error(*err),
{
    match err {
        RequestClientError::Status(s) => {
            if *s == 403 {
                Reply::NeedLogin
            } else {
                Reply::CommandFailed
            }
        },
        _ => Reply::CommandFailed,
    }
}

/// The first message of a chat: greet, and ask whether to register or log
/// in.
pub fn greetings() -> (r: StepOutcome)
    ensures
        r matches StepOutcome::Advance(State::Registration(RegisterState::CheckUser), Reply::Greeting),
{
    StepOutcome::Advance(State::Registration(RegisterState::CheckUser), Reply::Greeting)
}

/// The outcome of a step once its backend call has answered. Success logs
/// the user in (registration, login) or ends event creation, and leaves the
/// chat ready for commands. A failed login keeps the email and asks for the
/// password again; any other failure keeps the state and reports it.
pub fn after_call(call: &BackendCall, result: &Result<(), RequestClientError>) -> (r: StepOutcome)
    ensures
        result is Ok && call is Register ==> r matches StepOutcome::Advance(
            State::Authenticated(UseCase::EnterCommand),
            Reply::AccountCreated,
        ),
        result is Ok && call is Login ==> r matches StepOutcome::Advance(
            State::Authenticated(UseCase::EnterCommand),
            Reply::LoggedIn,
        ),
        result is Ok && call is CreateEvent ==> r matches StepOutcome::Advance(
            State::Authenticated(UseCase::EnterCommand),
            Reply::EventCreated,
        ),
        result is Err && call is Login ==> r matches StepOutcome::Stay(Reply::LoginFailed),
        result is Err && !(call is Login) ==> (r matches StepOutcome::Stay(rep) && rep
            == reply_for_error(result->Err_0)),
{
    match result {
        Ok(()) => {
            let reply = match call {
                BackendCall::Register(_) => Reply::AccountCreated,
                BackendCall::Login(_) => Reply::LoggedIn,
                BackendCall::CreateEvent(_) => Reply::EventCreated,
            };
            StepOutcome::Advance(State::Authenticated(UseCase::EnterCommand), reply)
        },
        Err(e) => match call {
            BackendCall::Login(_) => StepOutcome::Stay(Reply::LoginFailed),
            _ => StepOutcome::Stay(error_reply(e)),
        },
    }
}

/// Where `reset` takes a chat: to the command prompt while its session is
/// valid, else back to the choice between registering and logging in.
pub fn reset(session_is_valid: bool) -> (r: StepOutcome)
    ensures
        session_is_valid ==> r matches StepOutcome::Advance(
            State::Authenticated(UseCase::EnterCommand),
            Reply::Welcome,
        ),
        !session_is_valid ==> r matches StepOutcome::Advance(
            State::Registration(RegisterState::CheckUser),
            Reply::AskAuthChoice,
        ),
{
    if session_is_valid {
        StepOutcome::Advance(State::Authenticated(UseCase::EnterCommand), Reply::Welcome)
    } else {
        StepOutcome::Advance(State::Registration(RegisterState::CheckUser), Reply::AskAuthChoice)
    }
}

} // verus!
