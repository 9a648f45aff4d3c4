use vstd::prelude::*;

use crate::schemas::event::{Event, EventView};

verus! {

/// What the organizer of an event sees of it: the event, its id, and
/// whether registrations are open.
#[derive(Debug)]
pub struct EventOrganizerView {
    id: String,
    open: bool,
    event: Event,
}

pub struct OrganizedEvent {
    pub id: Seq<char>,
    pub open: bool,
    pub event: EventView,
}

impl View for EventOrganizerView {
    type V = OrganizedEvent;

    closed spec fn view(&self) -> OrganizedEvent {
        OrganizedEvent { id: self.id@, open: self.open, event: self.event@ }
    }
}

impl EventOrganizerView {
    pub fn new(id: String, open: bool, event: Event) -> (r: EventOrganizerView)
        ensures
            r@ == (OrganizedEvent { id: id@, open, event: event@ }),
    {
        EventOrganizerView { id, open, event }
    }

    pub fn id(&self) -> (r: &String)
        ensures
            r@ == self@.id,
    {
        &self.id
    }

    pub fn open(&self) -> (r: bool)
        ensures
            r == self@.open,
    {
        self.open
    }

    pub fn event(&self) -> (r: &Event)
        ensures
            r@ == self@.event,
    {
        &self.event
    }
}

} // verus!
