//! The corridor behind the ventilation shaft, where the rat lives and the
//! keycard lies until the player takes it.

use vstd::prelude::*;
use vstd::string::*;
use crate::action::{Action, ActionHandled, ActionView};
use crate::entities::player::{Item, PlayerView};
use crate::event_queue::EventQueue;
use crate::game_event::GameEventType;
use crate::room::{Room, RoomEffect};
use crate::state::{State, StateView};

verus! {

/// The corridor and its flags.
#[derive(Debug, Clone, Copy, PartialEq, Eq, Structural)]
pub struct CorridorRoom {
    pub visited: bool,
    pub keycard: bool,
    pub opened: bool,
}

impl CorridorRoom {
    /// The corridor at the start: shut, not visited, the keycard there.
    pub fn new() -> (r: CorridorRoom)
        ensures
            r == (CorridorRoom { visited: false, keycard: true, opened: false }),
    {
        CorridorRoom { visited: false, keycard: true, opened: false }
    }
}

impl Room for CorridorRoom {
    open spec fn opened(&self) -> bool {
        self.opened
    }

    open spec fn visited(&self) -> bool {
        self.visited
    }

    open spec fn after_open(&self) -> Self {
        CorridorRoom { opened: true, ..*self }
    }

    open spec fn after_visit(&self) -> Self {
        CorridorRoom { visited: true, ..*self }
    }

    open spec fn after_action(&self, state: StateView, action: ActionView) -> Self {
        match action {
            ActionView::OpenCorridor => CorridorRoom { opened: true, ..*self },
            ActionView::PickUpKeycard => CorridorRoom { keycard: false, ..*self },
            _ => *self,
        }
    }

    open spec fn effect(&self, state: StateView, action: ActionView) -> RoomEffect {
        match action {
            ActionView::OpenCorridor => if !self.opened {
                RoomEffect::answered(
                    state,
                    seq![
                        ActionView::Message(
                            "You smash open the ventilation shaft cover with your crowbar."@,
                            GameEventType::Success,
                        ),
                    ],
                )
            } else {
                RoomEffect::answered(
                    state,
                    seq![
                        ActionView::Message(
                            "The ventilation shaft is already open."@,
                            GameEventType::Failure,
                        ),
                    ],
                )
            },
            ActionView::PickUpKeycard => if self.keycard {
                RoomEffect::answered(
                    StateView {
                        player: PlayerView {
                            items: state.player.items.push(Item::KeyCard),
                            ..state.player
                        },
                        ..state
                    },
                    seq![ActionView::Message("You pick up the keycard."@, GameEventType::Success)],
                )
            } else {
                RoomEffect::answered(
                    state,
                    seq![
                        ActionView::Message(
                            "You already have the keycard."@,
                            GameEventType::Failure,
                        ),
                    ],
                )
            },
            _ => RoomEffect::ignored(state),
        }
    }

    proof fn lemma_declines_quietly(&self, state: StateView, action: ActionView) {
    }

    fn handle_action(
        &mut self,
        state: &mut State,
        event_queue: &mut EventQueue,
        action: &Action,
    ) -> (r: ActionHandled) {
        proof {
            assert(old(event_queue)@.with_timers(Seq::empty()) =~= old(event_queue)@) by {
                assert(old(event_queue)@.timers + Seq::empty() =~= old(event_queue)@.timers);
            }
            assert(old(event_queue)@.actions + Seq::empty() =~= old(event_queue)@.actions);
        }
        match action {
            Action::OpenCorridor => {
                if !self.opened {
                    self.opened = true;
                    event_queue.schedule_action(
                        Action::Message(
                            String::from_str(
                                "You smash open the ventilation shaft cover with your crowbar.",
                            ),
                            GameEventType::Success,
                        ),
                    );
                } else {
                    event_queue.schedule_action(
                        Action::Message(
                            String::from_str("The ventilation shaft is already open."),
                            GameEventType::Failure,
                        ),
                    );
                }
                proof {
                    let e = old(self).effect(old(state)@, action@);
                    assert(final(event_queue)@.actions =~= old(event_queue)@.actions + e.actions);
                }
                ActionHandled::Handled
            },
            Action::PickUpKeycard => {
                if self.keycard {
                    state.player.items.push(Item::KeyCard);
                    self.keycard = false;
                    event_queue.schedule_action(
                        Action::Message(
                            String::from_str("You pick up the keycard."),
                            GameEventType::Success,
                        ),
                    );
                } else {
                    event_queue.schedule_action(
                        Action::Message(
                            String::from_str("You already have the keycard."),
                            GameEventType::Failure,
                        ),
                    );
                }
                proof {
                    let e = old(self).effect(old(state)@, action@);
                    assert(final(event_queue)@.actions =~= old(event_queue)@.actions + e.actions);
                }
                ActionHandled::Handled
            },
            _ => ActionHandled::NotHandled,
        }
    }

    fn is_opened(&self) -> (r: bool) {
        self.opened
    }

    fn open(&mut self) {
        self.opened = true
    }

    fn visit(&mut self) {
        self.visited = true;
    }

    fn is_visited(&self) -> (r: bool) {
        self.visited
    }
}

/// The keycard is taken once: whoever picks it up gets it and is told so,
/// and the corridor notes that it is gone; whoever tries after that gets
/// nothing but a message that says so, and nothing else changes.
pub proof fn lemma_keycard_is_taken_once(room: CorridorRoom, state: StateView)
    ensures
        !room.after_action(state, ActionView::PickUpKeycard).keycard,
        room.keycard ==> room.effect(state, ActionView::PickUpKeycard).state.player.items
            == state.player.items.push(Item::KeyCard),
        !room.keycard ==> room.effect(state, ActionView::PickUpKeycard) == RoomEffect::answered(
            state,
            seq![ActionView::Message("You already have the keycard."@, GameEventType::Failure)],
        ) && room.after_action(state, ActionView::PickUpKeycard) == room,
        room.after_action(state, ActionView::PickUpKeycard).effect(
            room.effect(state, ActionView::PickUpKeycard).state,
            ActionView::PickUpKeycard,
        ).state == room.effect(state, ActionView::PickUpKeycard).state,
{
}

} // verus!
