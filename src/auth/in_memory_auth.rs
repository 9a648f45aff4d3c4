//! The session store: which authenticated identity each chat speaks for.
use std::collections::HashMap;
use vstd::prelude::*;

use crate::error::AuthError;
use crate::schemas::user::{Session, Token, UserIn, UserOut};
use crate::text::{signed_decimal, signed_decimal_string};

verus! {

broadcast use vstd::std_specs::hash::group_hash_axioms;

/// What the store knows of one session.
pub struct SessionView {
    pub user_id: Seq<char>,
    pub email: Seq<char>,
    pub password: Seq<char>,
    pub token: Seq<char>,
    pub expires_at: i64,
    pub is_active: bool,
}

impl SessionView {
    pub open spec fn valid_at(self, now: i64) -> bool {
        self.is_active && self.expires_at > now
    }
}

impl View for Session {
    type V = SessionView;

    open spec fn view(&self) -> SessionView {
        SessionView {
            user_id: self.user_id@,
            email: self.email@,
            password: self.password@,
            token: self.token.token@,
            expires_at: self.token.expires_at,
            is_active: self.is_active,
        }
    }
}

/// The same session with only its token replaced.
pub open spec fn with_token(s: SessionView, token: Seq<char>, expires_at: i64) -> SessionView {
    SessionView { token, expires_at, ..s }
}

/// The error for a chat that has no session: it names the chat.
pub open spec fn is_not_found(e: AuthError, chat_id: i64) -> bool {
    &&& e is SessionNotFound
    &&& e->SessionNotFound_0@ == signed_decimal(chat_id as int)
}

/// Whether the chat has a session that is valid at `now`.
pub open spec fn session_valid(m: Map<i64, SessionView>, chat_id: i64, now: i64) -> bool {
    m.contains_key(chat_id) && m[chat_id].valid_at(now)
}

/// The bearer token of the chat's session, if it has one.
pub open spec fn session_token(m: Map<i64, SessionView>, chat_id: i64) -> Option<Seq<char>> {
    if m.contains_key(chat_id) {
        Some(m[chat_id].token)
    } else {
        None
    }
}

/// A chat without a session has no valid session and no token.
pub proof fn lemma_no_session(m: Map<i64, SessionView>, chat_id: i64, now: i64)
    requires
        !m.contains_key(chat_id),
    ensures
        !session_valid(m, chat_id, now),
        session_token(m, chat_id) is None,
{
}

/// A session whose token has expired is not valid, even while active.
pub proof fn lemma_expired_session(m: Map<i64, SessionView>, chat_id: i64, now: i64)
    requires
        m.contains_key(chat_id),
        m[chat_id].expires_at <= now,
    ensures
        !session_valid(m, chat_id, now),
{
}

/// Right after a session is created for a chat, its token is the chat's
/// token, whatever session the chat had before.
pub proof fn lemma_new_session_token(m: Map<i64, SessionView>, chat_id: i64, session: SessionView)
    ensures
        session_token(m.insert(chat_id, session), chat_id) == Some(session.token),
{
}

/// Renewing a chat's token keeps the session's user id, email, password and
/// active flag, replaces the token and its expiry, and leaves other chats
/// alone.
pub proof fn lemma_renewal_keeps_identity(
    m: Map<i64, SessionView>,
    chat_id: i64,
    token: Seq<char>,
    expires_at: i64,
)
    requires
        m.contains_key(chat_id),
    ensures
        ({
            let n = m.insert(chat_id, with_token(m[chat_id], token, expires_at));
            &&& n[chat_id].user_id == m[chat_id].user_id
            &&& n[chat_id].email == m[chat_id].email
            &&& n[chat_id].password == m[chat_id].password
            &&& n[chat_id].is_active == m[chat_id].is_active
            &&& n[chat_id].token == token
            &&& n[chat_id].expires_at == expires_at
            &&& forall|c: i64| c != chat_id ==> n.contains_key(c) == m.contains_key(c) && (
            m.contains_key(c) ==> n[c] == m[c])
        }),
{
}

/// Relies on `chrono::Utc::now`: the current instant, in milliseconds since
/// the Unix epoch.
#[verifier::external_body]
fn utc_now_millis() -> (r: i64) {
    chrono::Utc::now().timestamp_millis()
}

/// In-memory map from chat identity to its session.
pub struct InMemoryAuth {
    sessions: HashMap<i64, Session>,
}

impl View for InMemoryAuth {
    type V = Map<i64, SessionView>;

    closed spec fn view(&self) -> Map<i64, SessionView> {
        self.sessions@.map_values(|s: Session| s@)
    }
}

fn not_found(chat_id: i64) -> (e: AuthError)
    ensures
        is_not_found(e, chat_id),
{
    AuthError::SessionNotFound(signed_decimal_string(chat_id))
}

impl InMemoryAuth {
    /// An empty store.
    pub fn new() -> (r: Self)
        ensures
            r@ == Map::<i64, SessionView>::empty(),
    {
        let r = InMemoryAuth { sessions: HashMap::new() };
        assert(r@ =~= Map::<i64, SessionView>::empty());
        r
    }

    /// The session of a chat.
    pub fn get_session(&self, chat_id: i64) -> (r: Result<Session, AuthError>)
        ensures
            self@.contains_key(chat_id) <==> r is Ok,
            r matches Ok(s) ==> s@ == self@[chat_id],
            r matches Err(e) ==> is_not_found(e, chat_id),
    {
        match self.sessions.get(&chat_id) {
            Some(s) => Ok(s.clone_session()),
            None => Err(not_found(chat_id)),
        }
    }

    /// The bearer token of a chat's session, for outbound calls.
    pub fn get_session_token(&self, chat_id: i64) -> (r: Result<String, AuthError>)
        ensures
            session_token(self@, chat_id) is Some <==> r is Ok,
            r matches Ok(t) ==> session_token(self@, chat_id) == Some(t@),
            r matches Err(e) ==> is_not_found(e, chat_id),
    {
        match self.sessions.get(&chat_id) {
            Some(s) => Ok(s.token.token.clone()),
            None => Err(not_found(chat_id)),
        }
    }

    /// Whether the chat has a session that is active and unexpired at `now`
    /// (milliseconds since the Unix epoch, UTC). A chat with no session has
    /// no valid one.
    pub fn validate_session_at(&self, chat_id: i64, now: i64) -> (r: bool)
        ensures
            r == session_valid(self@, chat_id, now),
    {
        match self.sessions.get(&chat_id) {
            Some(s) => s.is_active && s.token.expires_at > now,
            None => false,
        }
    }

    /// Whether the chat has a session that is active and unexpired now. Only
    /// a chat with an active session can have a valid one.
    pub fn validate_session(&self, chat_id: i64) -> (r: bool)
        ensures
            r ==> self@.contains_key(chat_id) && self@[chat_id].is_active,
    {
        let now = utc_now_millis();
        self.validate_session_at(chat_id, now)
    }

    /// Stores a fresh active session for the chat, built from the identity
    /// the backend reported for `token`. Any earlier session of the chat is
    /// replaced; other chats are untouched.
    pub fn new_session(&mut self, chat_id: i64, password: String, token: Token, user: UserIn)
        ensures
            final(self)@ == old(self)@.insert(
                chat_id,
                SessionView {
                    user_id: user.id@,
                    email: user.email@,
                    password: password@,
                    token: token.token@,
                    expires_at: token.expires_at,
                    is_active: true,
                },
            ),
    {
        let session = Session {
            user_id: user.id,
            email: user.email,
            password,
            token,
            is_active: true,
        };
        self.sessions.insert(chat_id, session);
        assert(self@ =~= old(self)@.insert(chat_id, session@));
    }

    /// The login request that renews a chat's token: the stored email and
    /// password.
    pub fn renewal_request(&self, chat_id: i64) -> (r: Result<UserOut, AuthError>)
        ensures
            self@.contains_key(chat_id) <==> r is Ok,
            r matches Ok(u) ==> u.email@ == self@[chat_id].email && u.password@
                == self@[chat_id].password && u.user_type is None,
            r matches Err(e) ==> is_not_found(e, chat_id),
    {
        match self.sessions.get(&chat_id) {
            Some(s) => Ok(UserOut { email: s.email.clone(), password: s.password.clone(), user_type: None }),
            None => Err(not_found(chat_id)),
        }
    }

    /// Replaces the token of a chat's session with a freshly issued one,
    /// keeping its user id, email, password and active flag.
    pub fn reset_token(&mut self, chat_id: i64, token: Token) -> (r: Result<(), AuthError>)
        ensures
            old(self)@.contains_key(chat_id) <==> r is Ok,
            r is Ok ==> final(self)@ == old(self)@.insert(
                chat_id,
                with_token(old(self)@[chat_id], token.token@, token.expires_at),
            ),
            r is Ok ==> final(self)@[chat_id].user_id == old(self)@[chat_id].user_id
                && final(self)@[chat_id].email == old(self)@[chat_id].email
                && final(self)@[chat_id].password == old(self)@[chat_id].password
                && final(self)@[chat_id].token == token.token@,
            r matches Err(e) ==> is_not_found(e, chat_id) && final(self)@ == old(self)@,
    {
        let renewed = match self.sessions.get(&chat_id) {
            Some(s) => Session {
                user_id: s.user_id.clone(),
                email: s.email.clone(),
                password: s.password.clone(),
                token,
                is_active: s.is_active,
            },
            None => {
                return Err(not_found(chat_id));
            },
        };
        self.sessions.insert(chat_id, renewed);
        assert(self@ =~= old(self)@.insert(
            chat_id,
            with_token(old(self)@[chat_id], token.token@, token.expires_at),
        ));
        Ok(())
    }
}

} // verus!
