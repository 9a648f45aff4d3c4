use vstd::prelude::*;

verus! {

#[verifier::external_type_specification]
#[verifier::external_body]
pub struct ExRegexError(fancy_regex::Error);

/// Failure of a session-store operation.
#[derive(Debug)]
pub enum AuthError {
    RequestClientError(crate::request_client::RequestClientError),
    SessionNotFound(String),
    SessionLockError(String),
}

/// Failure of a dialogue step that is not the user's to correct.
#[derive(Debug)]
pub enum DialogueError {
    RegexError(fancy_regex::Error),
}

} // verus!
