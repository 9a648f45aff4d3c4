use vstd::prelude::*;

verus! {

/// Credentials sent to the backend on login or registration.
#[derive(Clone, Debug)]
pub struct UserOut {
    pub email: String,
    pub password: String,
    pub user_type: Option<String>,
}

/// Identity of the authenticated user, as the backend reports it.
#[derive(Clone, Debug)]
pub struct UserIn {
    pub id: String,
    pub email: String,
}

/// A bearer token and the instant it stops being valid, in milliseconds
/// since the Unix epoch (UTC).
#[derive(Clone, Debug)]
pub struct Token {
    pub token: String,
    pub expires_at: i64,
}

/// An authenticated identity bound to a chat.
#[derive(Clone, Debug)]
pub struct Session {
    pub user_id: String,
    pub email: String,
    pub password: String,
    pub token: Token,
    pub is_active: bool,
}

impl Token {
    pub fn clone_token(&self) -> (r: Token)
        ensures
            r.token@ == self.token@,
            r.expires_at == self.expires_at,
    {
        Token { token: self.token.clone(), expires_at: self.expires_at }
    }
}

impl Session {
    /// A session is valid at `now` while it is active and its token has not
    /// yet expired.
    pub open spec fn valid_at(&self, now: i64) -> bool {
        self.is_active && self.token.expires_at > now
    }

    pub fn clone_session(&self) -> (r: Session)
        ensures
            r.user_id@ == self.user_id@,
            r.email@ == self.email@,
            r.password@ == self.password@,
            r.token.token@ == self.token.token@,
            r.token.expires_at == self.token.expires_at,
            r.is_active == self.is_active,
    {
        Session {
            user_id: self.user_id.clone(),
            email: self.email.clone(),
            password: self.password.clone(),
            token: self.token.clone_token(),
            is_active: self.is_active,
        }
    }
}

} // verus!
