//! Inline-button payloads: a fixed prefix naming the action, followed by the
//! id it acts on.
use vstd::prelude::*;

use crate::text::{chars_of, string_from};

verus! {

pub const OPEN_EVENT_PREFIX: &'static str = "event::open::";
pub const CLOSE_EVENT_PREFIX: &'static str = "event::close::";
pub const INSCRIPTION_CANCEL_PREFIX: &'static str = "inscription::cancel::";
pub const INSCRIPTION_ENROL_PREFIX: &'static str = "inscription::enrol::";
pub const SEE_INSCRIPTIONS_PREFIX: &'static str = "inscription::manage::";

/// What a button press asks for, with the event it is about.
#[derive(Clone, Debug)]
pub enum CallbackAction {
    OpenEvent(String),
    CloseEvent(String),
    CancelInscription(String),
    EnrolInscription(String),
    SeeInscriptions(String),
}

/// What follows `prefix` in `s`, when `s` starts with it.
pub open spec fn after_prefix(s: Seq<char>, prefix: Seq<char>) -> Option<Seq<char>> {
    if prefix.len() <= s.len() && s.take(prefix.len() as int) == prefix {
        Some(s.skip(prefix.len() as int))
    } else {
        None
    }
}

/// The action a payload names and its id, by the first prefix that fits.
pub open spec fn callback_of(s: Seq<char>) -> Option<(nat, Seq<char>)> {
    if after_prefix(s, OPEN_EVENT_PREFIX@) is Some {
        Some((0, after_prefix(s, OPEN_EVENT_PREFIX@)->0))
    } else if after_prefix(s, CLOSE_EVENT_PREFIX@) is Some {
        Some((1, after_prefix(s, CLOSE_EVENT_PREFIX@)->0))
    } else if after_prefix(s, INSCRIPTION_CANCEL_PREFIX@) is Some {
        Some((2, after_prefix(s, INSCRIPTION_CANCEL_PREFIX@)->0))
    } else if after_prefix(s, INSCRIPTION_ENROL_PREFIX@) is Some {
        Some((3, after_prefix(s, INSCRIPTION_ENROL_PREFIX@)->0))
    } else if after_prefix(s, SEE_INSCRIPTIONS_PREFIX@) is Some {
        Some((4, after_prefix(s, SEE_INSCRIPTIONS_PREFIX@)->0))
    } else {
        None
    }
}

proof fn lemma_prefixes_differ()
    ensures
        OPEN_EVENT_PREFIX@.len() == 13,
        CLOSE_EVENT_PREFIX@.len() == 14,
        INSCRIPTION_CANCEL_PREFIX@.len() == 21,
        OPEN_EVENT_PREFIX@[7] == 'o',
        CLOSE_EVENT_PREFIX@[7] == 'c',
        OPEN_EVENT_PREFIX@[0] == 'e',
        CLOSE_EVENT_PREFIX@[0] == 'e',
        INSCRIPTION_CANCEL_PREFIX@[0] == 'i',
{
    reveal_strlit("event::open::");
    reveal_strlit("event::close::");
    reveal_strlit("inscription::cancel::");
}

/// The payload of a button reads back as the action the button was made
/// for, on the same event: toggling an open or a closed event, and
/// cancelling an inscription.
pub proof fn lemma_button_round_trip(event_id: Seq<char>)
    ensures
        callback_of(CLOSE_EVENT_PREFIX@ + event_id) == Some((1nat, event_id)),
        callback_of(OPEN_EVENT_PREFIX@ + event_id) == Some((0nat, event_id)),
        callback_of(INSCRIPTION_CANCEL_PREFIX@ + event_id) == Some((2nat, event_id)),
{
    lemma_prefixes_differ();
    let close = CLOSE_EVENT_PREFIX@ + event_id;
    let open = OPEN_EVENT_PREFIX@ + event_id;
    let cancel = INSCRIPTION_CANCEL_PREFIX@ + event_id;
    assert(close.take(13)[7] != OPEN_EVENT_PREFIX@[7]);
    assert(close.take(14) =~= CLOSE_EVENT_PREFIX@);
    assert(close.skip(14) =~= event_id);
    assert(open.take(13) =~= OPEN_EVENT_PREFIX@);
    assert(open.skip(13) =~= event_id);
    assert(cancel.take(13)[0] != OPEN_EVENT_PREFIX@[0]);
    assert(cancel.take(14)[0] != CLOSE_EVENT_PREFIX@[0]);
    assert(cancel.take(21) =~= INSCRIPTION_CANCEL_PREFIX@);
    assert(cancel.skip(21) =~= event_id);
}

impl CallbackAction {
    /// Which action this is, numbered in the order of `callback_of`.
    pub open spec fn kind(&self) -> nat {
        match self {
            CallbackAction::OpenEvent(_) => 0,
            CallbackAction::CloseEvent(_) => 1,
            CallbackAction::CancelInscription(_) => 2,
            CallbackAction::EnrolInscription(_) => 3,
            CallbackAction::SeeInscriptions(_) => 4,
        }
    }

    /// The id the action is about.
    pub open spec fn target(&self) -> Seq<char> {
        match self {
            CallbackAction::OpenEvent(id) => id@,
            CallbackAction::CloseEvent(id) => id@,
            CallbackAction::CancelInscription(id) => id@,
            CallbackAction::EnrolInscription(id) => id@,
            CallbackAction::SeeInscriptions(id) => id@,
        }
    }
}

fn strip_prefix(v: &Vec<char>, prefix: &str) -> (r: Option<String>)
    ensures
        r is Some <==> after_prefix(v@, prefix@) is Some,
        r matches Some(t) ==> after_prefix(v@, prefix@) == Some(t@),
{
    let p = chars_of(prefix);
    if p.len() > v.len() {
        return None;
    }
    let mut i: usize = 0;
    while i < p.len()
        invariant
            p@ == prefix@,
            p@.len() <= v@.len(),
            i <= p@.len(),
            forall|k: int| 0 <= k < i ==> v@[k] == p@[k],
        decreases p@.len() - i,
    {
        if v[i] != p[i] {
            assert(v@.take(p@.len() as int)[i as int] != p@[i as int]);
            return None;
        }
        i = i + 1;
    }
    assert(v@.take(p@.len() as int) =~= p@);
    let mut rest: Vec<char> = Vec::new();
    let mut j: usize = p.len();
    while j < v.len()
        invariant
            p@.len() <= j <= v@.len(),
            rest@ == v@.subrange(p@.len() as int, j as int),
        decreases v@.len() - j,
    {
        rest.push(v[j]);
        j = j + 1;
        assert(rest@ =~= v@.subrange(p@.len() as int, j as int));
    }
    assert(rest@ =~= v@.skip(p@.len() as int));
    Some(string_from(rest.as_slice()))
}

/// Reads a button payload. A payload with none of the known prefixes names
/// no action.
pub fn parse_callback(data: &str) -> (r: Option<CallbackAction>)
    ensures
        r is Some <==> callback_of(data@) is Some,
        r matches Some(a) ==> callback_of(data@) == Some((a.kind(), a.target())),
{
    let v = chars_of(data);
    if let Some(id) = strip_prefix(&v, OPEN_EVENT_PREFIX) {
        return Some(CallbackAction::OpenEvent(id));
    }
    if let Some(id) = strip_prefix(&v, CLOSE_EVENT_PREFIX) {
        return Some(CallbackAction::CloseEvent(id));
    }
    if let Some(id) = strip_prefix(&v, INSCRIPTION_CANCEL_PREFIX) {
        return Some(CallbackAction::CancelInscription(id));
    }
    if let Some(id) = strip_prefix(&v, INSCRIPTION_ENROL_PREFIX) {
        return Some(CallbackAction::EnrolInscription(id));
    }
    if let Some(id) = strip_prefix(&v, SEE_INSCRIPTIONS_PREFIX) {
        return Some(CallbackAction::SeeInscriptions(id));
    }
    None
}

/// The payload of the button that toggles an event's registrations: an open
/// event gets a button that closes it, a closed one a button that opens it.
pub fn create_event_callback(event_id: &str, open: bool) -> (r: String)
    ensures
        open ==> r@ == CLOSE_EVENT_PREFIX@ + event_id@,
        !open ==> r@ == OPEN_EVENT_PREFIX@ + event_id@,
{
    let mut r = if open { CLOSE_EVENT_PREFIX.to_owned() } else { OPEN_EVENT_PREFIX.to_owned() };
    r.append(event_id);
    r
}

/// The payload of the button that cancels an inscription to an event.
pub fn cancel_inscription_callback(event_id: &str) -> (r: String)
    ensures
        r@ == INSCRIPTION_CANCEL_PREFIX@ + event_id@,
{
    let mut r = INSCRIPTION_CANCEL_PREFIX.to_owned();
    r.append(event_id);
    r
}

} // verus!
