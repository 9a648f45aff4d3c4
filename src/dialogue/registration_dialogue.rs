//! Registration and login: choosing between them, then email and password.
use vstd::prelude::*;

use crate::dialogue::{BackendCall, Reply, State as GlobalState, StepOutcome};
use crate::error::DialogueError;
use crate::schemas::user::UserOut;
use crate::text::{lower_of, same_text, to_lowercase};

verus! {

/// Shape of an email address: no whitespace, one `@`, and a dot inside the
/// domain.
pub const EMAIL_PATTERN: &'static str = r"^[^\s@]+@[^\s@]+\.[^\s@]+$";

/// Strength of a password: 8 to 72 characters with a letter and a digit.
pub const PASSWORD_PATTERN: &'static str = r"^(?=.*[A-Za-z])(?=.*\d).{8,72}$";

/// The account type that registration asks for.
pub const REGISTERED_USER_TYPE: &'static str = "USUARIO";

/// The steps of registering or logging in, with what each has gathered.
#[derive(Clone, Debug)]
pub enum State {
    CheckUser,
    RegisterEmail,
    RegisterPassword { email: String },
    ConfirmPassword { email: String, password: String },
    LoginEmail,
    LoginPassword { email: String },
}

/// Whether `fancy_regex` finds `pattern` in `text`.
pub uninterp spec fn regex_matches(pattern: Seq<char>, text: Seq<char>) -> bool;

/// Whether `fancy_regex` compiles `pattern` and runs it on `text` to an
/// answer, within its backtracking limit.
pub uninterp spec fn regex_runs(pattern: Seq<char>, text: Seq<char>) -> bool;

/// Relies on `fancy_regex::Regex::new` and `Regex::is_match`: compiles the
/// pattern and tells whether it matches the text. Whether it answers, and
/// what, depends on the two texts alone.
#[verifier::external_body]
fn regex_is_match(pattern: &str, text: &str) -> (r: Result<bool, fancy_regex::Error>)
    ensures
        r is Ok <==> regex_runs(pattern@, text@),
        r matches Ok(b) ==> b == regex_matches(pattern@, text@),
{
    fancy_regex::Regex::new(pattern).and_then(|re| re.is_match(text))
}

pub open spec fn text_view(text: Option<&str>) -> Option<Seq<char>> {
    match text {
        Some(t) => Some(t@),
        None => None,
    }
}

pub open spec fn lowered(text: Option<&str>) -> Option<Seq<char>> {
    match text {
        Some(t) => Some(lower_of(t@)),
        None => None,
    }
}

/// The choice between registering (`a`) and logging in (`b`), given the
/// input already in lowercase.
pub open spec fn auth_selection_outcome(lower: Option<Seq<char>>, r: StepOutcome) -> bool {
    if lower == Some(seq!['a']) {
        r matches StepOutcome::Advance(GlobalState::Registration(State::RegisterEmail), Reply::AskRegisterEmail)
    } else if lower == Some(seq!['b']) {
        r matches StepOutcome::Advance(GlobalState::Registration(State::LoginEmail), Reply::AskLoginEmail)
    } else {
        r matches StepOutcome::Stay(Reply::InvalidAuthChoice)
    }
}

/// The choice between registering and logging in, from the lowercased input.
pub fn auth_selection_step(lower: Option<&str>) -> (r: StepOutcome)
    ensures
        auth_selection_outcome(text_view(lower), r),
{
    match lower {
        Some(m) => {
            let is_a = same_text(m, "a");
            let is_b = same_text(m, "b");
            proof {
                reveal_strlit("a");
                reveal_strlit("b");
                assert("a"@ =~= seq!['a']);
                assert("b"@ =~= seq!['b']);
            }
            if is_a {
                StepOutcome::Advance(GlobalState::Registration(State::RegisterEmail), Reply::AskRegisterEmail)
            } else if is_b {
                StepOutcome::Advance(GlobalState::Registration(State::LoginEmail), Reply::AskLoginEmail)
            } else {
                StepOutcome::Stay(Reply::InvalidAuthChoice)
            }
        },
        None => StepOutcome::Stay(Reply::InvalidAuthChoice),
    }
}

/// The first choice of a new user: register (`A`) or log in (`B`), in either
/// case; anything else asks again.
pub fn check_user_auth_selection(text: Option<&str>) -> (r: StepOutcome)
    ensures
        auth_selection_outcome(lowered(text), r),
{
    match text {
        Some(t) => {
            let lower = to_lowercase(t);
            auth_selection_step(Some(lower.as_str()))
        },
        None => auth_selection_step(None),
    }
}

/// An email step: an input of the right shape moves on to the password,
/// carrying the email; anything else asks again.
pub open spec fn email_outcome(
    login: bool,
    text: Option<Seq<char>>,
    is_email: bool,
    r: StepOutcome,
) -> bool {
    if text is Some && is_email {
        if login {
            r matches StepOutcome::Advance(
                GlobalState::Registration(State::LoginPassword { email }),
                Reply::AskPassword,
            ) && email@ == text->0
        } else {
            r matches StepOutcome::Advance(
                GlobalState::Registration(State::RegisterPassword { email }),
                Reply::AskPassword,
            ) && email@ == text->0
        }
    } else {
        r matches StepOutcome::Stay(Reply::InvalidEmail)
    }
}

/// The email step of registration (`login` false) or of login, given whether
/// the input has the shape of an email.
pub fn email_step(login: bool, text: Option<&str>, is_email: bool) -> (r: StepOutcome)
    ensures
        email_outcome(login, text_view(text), is_email, r),
{
    match text {
        Some(t) => {
            if is_email {
                let email = t.to_owned();
                if login {
                    StepOutcome::Advance(
                        GlobalState::Registration(State::LoginPassword { email }),
                        Reply::AskPassword,
                    )
                } else {
                    StepOutcome::Advance(
                        GlobalState::Registration(State::RegisterPassword { email }),
                        Reply::AskPassword,
                    )
                }
            } else {
                StepOutcome::Stay(Reply::InvalidEmail)
            }
        },
        None => StepOutcome::Stay(Reply::InvalidEmail),
    }
}

fn email_input(login: bool, text: Option<&str>) -> (r: Result<StepOutcome, DialogueError>)
    ensures
        text is None ==> r matches Ok(StepOutcome::Stay(Reply::InvalidEmail)),
        text is Some ==> (r is Ok <==> regex_runs(EMAIL_PATTERN@, text->0@)),
        text is Some && r is Ok ==> email_outcome(
            login,
            Some(text->0@),
            regex_matches(EMAIL_PATTERN@, text->0@),
            r->Ok_0,
        ),
{
    match text {
        Some(t) => match regex_is_match(EMAIL_PATTERN, t) {
            Ok(is_email) => {
                let o = email_step(login, Some(t), is_email);
                assert(is_email == regex_matches(EMAIL_PATTERN@, t@));
                assert(text_view(Some(t)) == Some(t@));
                Ok(o)
            },
            Err(e) => Err(DialogueError::RegexError(e)),
        },
        None => Ok(email_step(login, None, false)),
    }
}

/// The email step of registration.
pub fn handle_register_email(text: Option<&str>) -> (r: Result<StepOutcome, DialogueError>)
    ensures
        text is None ==> r matches Ok(StepOutcome::Stay(Reply::InvalidEmail)),
        text is Some ==> (r is Ok <==> regex_runs(EMAIL_PATTERN@, text->0@)),
        text is Some && r is Ok ==> email_outcome(
            false,
            Some(text->0@),
            regex_matches(EMAIL_PATTERN@, text->0@),
            r->Ok_0,
        ),
{
    email_input(false, text)
}

/// The email step of login.
pub fn handle_login_email(text: Option<&str>) -> (r: Result<StepOutcome, DialogueError>)
    ensures
        text is None ==> r matches Ok(StepOutcome::Stay(Reply::InvalidEmail)),
        text is Some ==> (r is Ok <==> regex_runs(EMAIL_PATTERN@, text->0@)),
        text is Some && r is Ok ==> email_outcome(
            true,
            Some(text->0@),
            regex_matches(EMAIL_PATTERN@, text->0@),
            r->Ok_0,
        ),
{
    email_input(true, text)
}

/// The password step of registration: a strong enough password moves on to
/// its confirmation, carrying email and password; anything else asks again.
pub open spec fn password_outcome(
    email: Seq<char>,
    text: Option<Seq<char>>,
    is_strong: bool,
    r: StepOutcome,
) -> bool {
    if text is Some && is_strong {
        r matches StepOutcome::Advance(
            GlobalState::Registration(State::ConfirmPassword { email: e, password: p }),
            Reply::AskPasswordConfirmation,
        ) && e@ == email && p@ == text->0
    } else {
        r matches StepOutcome::Stay(Reply::InvalidPassword)
    }
}

/// The password step of registration, given whether the input is strong
/// enough.
pub fn register_password_step(email: String, text: Option<&str>, is_strong: bool) -> (r: StepOutcome)
    ensures
        password_outcome(email@, text_view(text), is_strong, r),
{
    match text {
        Some(t) => {
            if is_strong {
                StepOutcome::Advance(
                    GlobalState::Registration(State::ConfirmPassword { email, password: t.to_owned() }),
                    Reply::AskPasswordConfirmation,
                )
            } else {
                StepOutcome::Stay(Reply::InvalidPassword)
            }
        },
        None => StepOutcome::Stay(Reply::InvalidPassword),
    }
}

/// The password step of registration.
pub fn handle_register_password(email: String, text: Option<&str>) -> (r: Result<
    StepOutcome,
    DialogueError,
>)
    ensures
        text is None ==> r matches Ok(StepOutcome::Stay(Reply::InvalidPassword)),
        text is Some ==> (r is Ok <==> regex_runs(PASSWORD_PATTERN@, text->0@)),
        text is Some && r is Ok ==> password_outcome(
            email@,
            Some(text->0@),
            regex_matches(PASSWORD_PATTERN@, text->0@),
            r->Ok_0,
        ),
{
    match text {
        Some(t) => match regex_is_match(PASSWORD_PATTERN, t) {
            Ok(is_strong) => Ok(register_password_step(email, Some(t), is_strong)),
            Err(e) => Err(DialogueError::RegexError(e)),
        },
        None => Ok(register_password_step(email, None, false)),
    }
}

/// The confirmation step of registration: the same password again asks the
/// backend to register the account; anything else asks again, keeping email
/// and password.
pub fn handle_confirm_password(email: String, password: String, text: Option<&str>) -> (r: StepOutcome)
    ensures
        text is Some && text->0@ == password@ ==> (r matches StepOutcome::Call(
            BackendCall::Register(u),
        ) && u.email@ == email@ && u.password@ == password@ && (u.user_type matches Some(k)
            && k@ == REGISTERED_USER_TYPE@)),
        !(text matches Some(t) && t@ == password@) ==> r matches StepOutcome::Stay(
            Reply::PasswordMismatch,
        ),
{
    match text {
        Some(t) => {
            if same_text(t, password.as_str()) {
                StepOutcome::Call(
                    BackendCall::Register(
                        UserOut {
                            email,
                            password,
                            user_type: Some(REGISTERED_USER_TYPE.to_owned()),
                        },
                    ),
                )
            } else {
                StepOutcome::Stay(Reply::PasswordMismatch)
            }
        },
        None => StepOutcome::Stay(Reply::PasswordMismatch),
    }
}

/// The password step of login: whatever was sent is tried as the password.
pub fn handle_login_password(email: String, text: Option<&str>) -> (r: StepOutcome)
    ensures
        r matches StepOutcome::Call(BackendCall::Login(u)) && u.email@ == email@
            && u.password@ == (match text {
            Some(t) => t@,
            None => Seq::<char>::empty(),
        }) && u.user_type is None,
{
    let password = match text {
        Some(t) => t.to_owned(),
        None => String::new(),
    };
    StepOutcome::Call(BackendCall::Login(UserOut { email, password, user_type: None }))
}

} // verus!
