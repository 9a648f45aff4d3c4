//! A user's registration to an event, and the wait list of an event.
use vstd::prelude::*;

use crate::schemas::event::LocalDateTime;

verus! {

/// Where an inscription stands.
#[derive(Clone, Copy, Debug, PartialEq, Eq, Structural)]
pub enum InscriptionState {
    Confirmed,
    Rejected,
    Pending,
}

impl InscriptionState {
    /// Only a confirmed inscription can be cancelled from the chat.
    pub fn is_cancellable(&self) -> (r: bool)
        ensures
            r == (*self == InscriptionState::Confirmed),
    {
        match self {
            InscriptionState::Confirmed => true,
            _ => false,
        }
    }
}

/// A user's inscription to an event.
#[derive(Debug)]
pub struct Inscription {
    pub id: String,
    pub state: InscriptionState,
    pub email: String,
    pub date: LocalDateTime,
    pub event_id: String,
}

pub struct InscriptionView {
    pub id: Seq<char>,
    pub state: InscriptionState,
    pub email: Seq<char>,
    pub date: LocalDateTime,
    pub event_id: Seq<char>,
}

impl View for Inscription {
    type V = InscriptionView;

    open spec fn view(&self) -> InscriptionView {
        InscriptionView {
            id: self.id@,
            state: self.state,
            email: self.email@,
            date: self.date,
            event_id: self.event_id@,
        }
    }
}

/// A user waiting for a place at an event.
#[derive(Debug)]
pub struct WaitlistUser {
    pub id: String,
    pub email: String,
}

/// A place on an event's wait list.
#[derive(Debug)]
pub struct WaitlistInscription {
    pub id: String,
    pub user: WaitlistUser,
    pub entry_date: LocalDateTime,
}

/// A wait-list place seen as a pending inscription to the event.
pub open spec fn as_pending(w: WaitlistInscription, event_id: Seq<char>) -> InscriptionView {
    InscriptionView {
        id: w.id@,
        state: InscriptionState::Pending,
        email: w.user.email@,
        date: w.entry_date,
        event_id,
    }
}

pub open spec fn inscriptions_view(v: Seq<Inscription>) -> Seq<InscriptionView> {
    v.map_values(|i: Inscription| i@)
}

/// Every inscription of an event: the confirmed ones as they are, then each
/// wait-list place, in order, as a pending inscription to the event.
pub fn all_inscriptions(
    confirmed: Vec<Inscription>,
    waitlist: Vec<WaitlistInscription>,
    event_id: &str,
) -> (r: Vec<Inscription>)
    ensures
        inscriptions_view(r@) == inscriptions_view(confirmed@) + waitlist@.map_values(
            |w: WaitlistInscription| as_pending(w, event_id@),
        ),
{
    let mut all = confirmed;
    let ghost start = inscriptions_view(all@);
    let ghost wl = waitlist@;
    assert(waitlist@ =~= wl.skip(0));
    assert(wl.take(0).map_values(|w: WaitlistInscription| as_pending(w, event_id@)) =~= Seq::<InscriptionView>::empty());
    assert(start + Seq::<InscriptionView>::empty() =~= start);
    let mut rest = waitlist;
    let ghost n = wl.len();
    while rest.len() > 0
        invariant
            rest@.len() <= n,
            n == wl.len(),
            rest@ == wl.skip(n - rest@.len()),
            inscriptions_view(all@) == start + wl.take(n - rest@.len()).map_values(
                |w: WaitlistInscription| as_pending(w, event_id@),
            ),
        decreases rest@.len(),
    {
        let ghost before = inscriptions_view(all@);
        let ghost k = n - rest@.len();
        let w = rest.remove(0);
        assert(w == wl[k]);
        assert(rest@ =~= wl.skip(k + 1));
        let WaitlistInscription { id, user, entry_date } = w;
        all.push(
            Inscription {
                id,
                state: InscriptionState::Pending,
                email: user.email,
                date: entry_date,
                event_id: event_id.to_owned(),
            },
        );
        assert(wl.take(k + 1) =~= wl.take(k).push(wl[k]));
        assert(inscriptions_view(all@) =~= before.push(as_pending(wl[k], event_id@)));
        assert(inscriptions_view(all@) =~= start + wl.take(k + 1).map_values(
            |w: WaitlistInscription| as_pending(w, event_id@),
        ));
    }
    assert(wl.take(n as int) =~= wl);
    all
}

} // verus!
