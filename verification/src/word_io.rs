//! Executable message types of the word oracle.  They carry the same
//! information as the coordinator-side types in [`crate::session_io`] and
//! share their abstract form.

use vstd::prelude::*;

use crate::model;
use crate::session_io::WordleEvent;

verus! {

/// A request the word oracle handles.
#[derive(Debug, PartialEq)]
pub enum Action {
    StartGame { user: u64 },
    CheckWord { user: u64, word: String },
}

impl View for Action {
    type V = model::WordleAction;

    open spec fn view(&self) -> model::WordleAction {
        match self {
            Action::StartGame { user } => model::WordleAction::StartGame { user: *user },
            Action::CheckWord { user, word } =>
                model::WordleAction::CheckWord { user: *user, word: word@ },
        }
    }
}

/// A reply the word oracle produces.
#[derive(Debug, PartialEq)]
pub enum Event {
    GameStarted { user: u64 },
    WordChecked { user: u64, correct_positions: Vec<u8>, contained_in_word: Vec<u8> },
}

impl View for Event {
    type V = model::WordleEvent;

    open spec fn view(&self) -> model::WordleEvent {
        match self {
            Event::GameStarted { user } => model::WordleEvent::GameStarted { user: *user },
            Event::WordChecked { user, correct_positions, contained_in_word } =>
                model::WordleEvent::WordChecked {
                    user: *user,
                    correct_positions: correct_positions@,
                    contained_in_word: contained_in_word@,
                },
        }
    }
}

impl Event {
    /// The oracle's reply as the coordinator receives it off the wire.
    pub fn into_session_event(self) -> (r: WordleEvent)
        ensures
            r@ == self@,
    {
        match self {
            Event::GameStarted { user } => WordleEvent::GameStarted { user },
            Event::WordChecked { user, correct_positions, contained_in_word } =>
                WordleEvent::WordChecked { user, correct_positions, contained_in_word },
        }
    }
}

/// Why the oracle rejected a request.
#[derive(Clone, Copy, PartialEq, Eq, Structural, Debug)]
pub enum WordError {
    /// The guess does not have five letters.
    WrongLength,
    /// No game was started for this player.
    NoGame,
}

} // verus!
