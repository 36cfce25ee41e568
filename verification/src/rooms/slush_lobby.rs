//! The slush lobby, the hub of the ship: from here a ventilation shaft and
//! the door to the cryo control room lead on.

use vstd::prelude::*;
use vstd::string::*;
use crate::action::{Action, ActionHandled, ActionView};
use crate::entities::player::Item;
use crate::event_queue::EventQueue;
use crate::game_event::GameEventType;
use crate::room::{Room, RoomEffect};
use crate::state::{State, StateView};

verus! {

/// The slush lobby and its flags.
#[derive(Debug, Clone, Copy, PartialEq, Eq, Structural)]
pub struct SlushLobbyRoom {
    pub visited: bool,
    pub door_opened: bool,
    pub shaft_opened: bool,
}

impl SlushLobbyRoom {
    /// The slush lobby at the start: not visited, door and shaft shut.
    pub fn new() -> (r: SlushLobbyRoom)
        ensures
            r == (SlushLobbyRoom { visited: false, door_opened: false, shaft_opened: false }),
    {
        SlushLobbyRoom { visited: false, door_opened: false, shaft_opened: false }
    }

    /// Whether the player can force the shaft: it is still shut and they
    /// carry the crowbar.
    pub open spec fn can_force_shaft(&self, state: StateView) -> bool {
        !self.shaft_opened && state.player.items.contains(Item::Crowbar)
    }

    /// Whether the player can unlock the door to the cryo control room:
    /// it is still shut and they carry the keycard.
    pub open spec fn can_unlock_door(&self, state: StateView) -> bool {
        !self.door_opened && state.player.items.contains(Item::KeyCard)
    }

    /// What the player is told when they put the crowbar to the shaft.
    pub open spec fn crowbar_answer(&self, state: StateView) -> ActionView {
        if self.shaft_opened {
            ActionView::Message("The ventilation shaft is already open."@, GameEventType::Failure)
        } else if !state.player.items.contains(Item::Crowbar) {
            ActionView::Message(
                "You have nothing to force the ventilation shaft open with."@,
                GameEventType::Failure,
            )
        } else {
            ActionView::Message(
                "You smash open the ventilation shaft cover with your crowbar."@,
                GameEventType::Success,
            )
        }
    }

    /// What the player is told when they hold the keycard to the door.
    pub open spec fn keycard_answer(&self, state: StateView) -> ActionView {
        if self.door_opened {
            ActionView::Message("The cryo control door is already open."@, GameEventType::Failure)
        } else if !state.player.items.contains(Item::KeyCard) {
            ActionView::Message(
                "You have no keycard to open the cryo control door with."@,
                GameEventType::Failure,
            )
        } else {
            ActionView::Message(
                "You open the cryo control door. SSswsschh"@,
                GameEventType::Success,
            )
        }
    }
}

impl Room for SlushLobbyRoom {
    open spec fn opened(&self) -> bool {
        true
    }

    open spec fn visited(&self) -> bool {
        self.visited
    }

    open spec fn after_open(&self) -> Self {
        *self
    }

    open spec fn after_visit(&self) -> Self {
        SlushLobbyRoom { visited: true, ..*self }
    }

    open spec fn after_action(&self, state: StateView, action: ActionView) -> Self {
        match action {
            ActionView::UseCrowbar => if self.can_force_shaft(state) {
                SlushLobbyRoom { shaft_opened: true, ..*self }
            } else {
                *self
            },
            ActionView::UseKeycard => if self.can_unlock_door(state) {
                SlushLobbyRoom { door_opened: true, ..*self }
            } else {
                *self
            },
            _ => *self,
        }
    }

    open spec fn effect(&self, state: StateView, action: ActionView) -> RoomEffect {
        match action {
            ActionView::UseCrowbar => RoomEffect::answered(
                state,
                seq![self.crowbar_answer(state)],
            ),
            ActionView::UseKeycard => RoomEffect::answered(
                state,
                seq![self.keycard_answer(state)],
            ),
            _ => RoomEffect::ignored(state),
        }
    }

    proof fn lemma_declines_quietly(&self, state: StateView, action: ActionView) {
    }

    fn handle_action(
        &mut self,
        state: &mut State,
        event_queue: &mut EventQueue,
        action: &Action,
    ) -> (r: ActionHandled) {
        proof {
            assert(old(event_queue)@.with_timers(Seq::empty()) =~= old(event_queue)@) by {
                assert(old(event_queue)@.timers + Seq::empty() =~= old(event_queue)@.timers);
            }
        }
        match action {
            Action::UseCrowbar => {
                if self.shaft_opened {
                    event_queue.schedule_action(
                        Action::Message(
                            String::from_str("The ventilation shaft is already open."),
                            GameEventType::Failure,
                        ),
                    );
                } else if !state.player.has_item(Item::Crowbar) {
                    event_queue.schedule_action(
                        Action::Message(
                            String::from_str(
                                "You have nothing to force the ventilation shaft open with.",
                            ),
                            GameEventType::Failure,
                        ),
                    );
                } else {
                    self.shaft_opened = true;
                    event_queue.schedule_action(
                        Action::Message(
                            String::from_str(
                                "You smash open the ventilation shaft cover with your crowbar.",
                            ),
                            GameEventType::Success,
                        ),
                    );
                }
                proof {
                    let e = old(self).effect(old(state)@, action@);
                    assert(final(event_queue)@.actions =~= old(event_queue)@.actions + e.actions);
                }
                ActionHandled::Handled
            },
            Action::UseKeycard => {
                if self.door_opened {
                    event_queue.schedule_action(
                        Action::Message(
                            String::from_str("The cryo control door is already open."),
                            GameEventType::Failure,
                        ),
                    );
                } else if !state.player.has_item(Item::KeyCard) {
                    event_queue.schedule_action(
                        Action::Message(
                            String::from_str(
                                "You have no keycard to open the cryo control door with.",
                            ),
                            GameEventType::Failure,
                        ),
                    );
                } else {
                    self.door_opened = true;
                    event_queue.schedule_action(
                        Action::Message(
                            String::from_str("You open the cryo control door. SSswsschh"),
                            GameEventType::Success,
                        ),
                    );
                }
                proof {
                    let e = old(self).effect(old(state)@, action@);
                    assert(final(event_queue)@.actions =~= old(event_queue)@.actions + e.actions);
                }
                ActionHandled::Handled
            },
            _ => {
                proof {
                    assert(old(event_queue)@.actions + Seq::empty() =~= old(event_queue)@.actions);
                }
                ActionHandled::NotHandled
            },
        }
    }

    fn is_opened(&self) -> (r: bool) {
        true
    }

    fn open(&mut self) {
    }

    fn visit(&mut self) {
        self.visited = true;
    }

    fn is_visited(&self) -> (r: bool) {
        self.visited
    }
}

} // verus!
