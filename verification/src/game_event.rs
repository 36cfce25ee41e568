//! Entries of the narrated log.

use vstd::prelude::*;

verus! {

/// The category under which a log entry is shown.
#[derive(Debug, PartialEq, Eq, Structural, Hash, Clone, Copy)]
pub enum GameEventType {
    Combat,
    Normal,
    Success,
    Failure,
    Debug,
}

/// One entry of the log: a text and its category.
#[derive(Debug)]
pub struct GameEvent {
    pub content: String,
    pub game_event_type: GameEventType,
}

/// What a log entry says, with its text as a sequence of characters.
pub struct GameEventView {
    pub content: Seq<char>,
    pub game_event_type: GameEventType,
}

impl View for GameEvent {
    type V = GameEventView;

    open spec fn view(&self) -> GameEventView {
        GameEventView { content: self.content@, game_event_type: self.game_event_type }
    }
}

impl Clone for GameEvent {
    fn clone(&self) -> (r: Self)
        ensures
            r@ == self@,
    {
        GameEvent { content: self.content.clone(), game_event_type: self.game_event_type }
    }
}

} // verus!
