//! What the word oracle receives and answers.

use crate::ids::ActorId;
use crate::session_io::{WordleAction, WordleActionView, WordleEvent, WordleEventView};
use vstd::prelude::*;

verus! {

/// Names the oracle's interface: it takes an `Action` and answers with an
/// `Event`.
pub struct WordleMetadata;

/// A request to the oracle.
#[derive(Clone, Debug, PartialEq, Eq)]
pub enum Action {
    StartGame { user: ActorId },
    CheckWord { user: ActorId, word: String },
}

impl View for Action {
    type V = WordleActionView;

    open spec fn view(&self) -> WordleActionView {
        match *self {
            Action::StartGame { user } => WordleActionView::StartGame { user },
            Action::CheckWord { user, word } => WordleActionView::CheckWord { user, word: word@ },
        }
    }
}

impl Action {
    /// The request as the oracle takes it: the coordinator's `WordleAction`
    /// and the oracle's `Action` are one message.
    pub fn from(request: WordleAction) -> (action: Action)
        ensures
            action@ == request@,
    {
        match request {
            WordleAction::StartGame { user } => Action::StartGame { user },
            WordleAction::CheckWord { user, word } => Action::CheckWord { user, word },
        }
    }
}

/// An answer of the oracle.
#[derive(Clone, Debug, PartialEq, Eq)]
pub enum Event {
    GameStarted { user: ActorId },
    WordChecked { user: ActorId, correct_position: Vec<u8>, contained_in_word: Vec<u8> },
}

impl View for Event {
    type V = WordleEventView;

    open spec fn view(&self) -> WordleEventView {
        match *self {
            Event::GameStarted { user } => WordleEventView::GameStarted { user },
            Event::WordChecked { user, correct_position, contained_in_word } => {
                WordleEventView::WordChecked {
                    user,
                    correct_positions: correct_position@,
                    contained_in_word: contained_in_word@,
                }
            },
        }
    }
}

impl Event {
    /// The answer as the coordinator takes it: the oracle's `Event` and the
    /// coordinator's `WordleEvent` are one message.
    pub fn into_wordle_event(self) -> (event: WordleEvent)
        ensures
            event@ == self@,
    {
        match self {
            Event::GameStarted { user } => WordleEvent::GameStarted { user },
            Event::WordChecked { user, correct_position, contained_in_word } => {
                WordleEvent::WordChecked {
                    user,
                    correct_positions: correct_position,
                    contained_in_word,
                }
            },
        }
    }
}

} // verus!
