//! The commands a logged-in user can give, and which handler an inbound
//! message goes to.
use vstd::prelude::*;

use crate::dialogue::{State, UseCase};
use crate::schemas::event::EventFilter;

pub mod event;
pub mod scan;

verus! {

/// The bot's commands.
#[derive(Clone, Debug)]
pub enum Command {
    /// Show the help message.
    Help,
    /// Reset the dialogue.
    Reset,
    /// List the open events that pass the filters.
    ListEvents(EventFilter),
    /// List the user's inscriptions.
    MyInscriptions,
    /// Create a new event.
    CreateEvent,
}

/// The handler an inbound message goes to.
#[derive(Clone, Copy, Debug, PartialEq, Eq, Structural)]
pub enum Route {
    /// Reset the dialogue, from any state.
    Reset,
    /// Run the command, after making sure the session is valid.
    Command,
    /// Greet a new chat.
    Greeting,
    /// Feed the message to the step of registration or login.
    RegistrationStep,
    /// Feed the message to the step of event creation.
    EventCreationStep,
    /// Nothing expects this message: drop it.
    Ignore,
}

/// Which handler a message goes to, given the chat's state and the command
/// the message holds, if any. `reset` works from every state; other commands
/// only at the command prompt. A message that is no command there is
/// dropped; anywhere else it is the input of the current step.
pub open spec fn route_of(state: State, command: Option<Command>) -> Route {
    if command matches Some(Command::Reset) {
        Route::Reset
    } else if command is Some && state matches State::Authenticated(UseCase::EnterCommand) {
        Route::Command
    } else {
        match state {
            State::Start => Route::Greeting,
            State::Registration(_) => Route::RegistrationStep,
            State::Authenticated(UseCase::EventCreation(_)) => Route::EventCreationStep,
            State::Authenticated(UseCase::EnterCommand) => Route::Ignore,
        }
    }
}

/// Picks the handler of an inbound message.
pub fn route(state: &State, command: Option<&Command>) -> (r: Route)
    ensures
        r == route_of(*state, match command {
            Some(c) => Some(*c),
            None => None,
        }),
{
    if let Some(Command::Reset) = command {
        return Route::Reset;
    }
    match state {
        State::Start => Route::Greeting,
        State::Registration(_) => Route::RegistrationStep,
        State::Authenticated(UseCase::EventCreation(_)) => Route::EventCreationStep,
        State::Authenticated(UseCase::EnterCommand) => {
            if command.is_some() {
                Route::Command
            } else {
                Route::Ignore
            }
        },
    }
}

} // verus!
