//! The cryobay, where the player wakes up: a crowbar lies here, and the
//! casket that ends the game.

use vstd::prelude::*;
use vstd::string::*;
use crate::action::{Action, ActionHandled, ActionView};
use crate::entities::player::{Item, PlayerView};
use crate::event_queue::EventQueue;
use crate::game_event::GameEventType;
use crate::room::{Room, RoomEffect};
use crate::state::{State, StateView};

verus! {

/// The cryobay and its flags.
#[derive(Debug, Clone, Copy, PartialEq, Eq, Structural)]
pub struct CryobayRoom {
    pub visited: bool,
    pub lever: bool,
    pub crowbar: bool,
    pub casket_locked: bool,
}

impl CryobayRoom {
    /// The cryobay at the start: not visited, the crowbar still there.
    pub fn new() -> (r: CryobayRoom)
        ensures
            r == (CryobayRoom { visited: false, lever: false, crowbar: true, casket_locked: true }),
    {
        CryobayRoom { visited: false, lever: false, crowbar: true, casket_locked: true }
    }
}

impl Room for CryobayRoom {
    open spec fn opened(&self) -> bool {
        true
    }

    open spec fn visited(&self) -> bool {
        self.visited
    }

    open spec fn after_open(&self) -> Self {
        *self
    }

    open spec fn after_visit(&self) -> Self {
        CryobayRoom { visited: true, ..*self }
    }

    open spec fn after_action(&self, state: StateView, action: ActionView) -> Self {
        match action {
            ActionView::PickUpCrowbar => CryobayRoom { crowbar: false, ..*self },
            _ => *self,
        }
    }

    open spec fn effect(&self, state: StateView, action: ActionView) -> RoomEffect {
        match action {
            ActionView::PickUpCrowbar => if self.crowbar {
                RoomEffect::answered(
                    StateView {
                        player: PlayerView {
                            items: state.player.items.push(Item::Crowbar),
                            ..state.player
                        },
                        ..state
                    },
                    seq![ActionView::Message("You pick up the crowbar."@, GameEventType::Success)],
                )
            } else {
                RoomEffect::answered(
                    state,
                    seq![
                        ActionView::Message(
                            "You already have the crowbar."@,
                            GameEventType::Failure,
                        ),
                    ],
                )
            },
            ActionView::UseCasket => RoomEffect::answered(
                state,
                seq![
                    ActionView::Message(
                        "\"Reboot initiated.\" Those are the last words you hear as you slip back into cryosleep once again."@,
                        GameEventType::Success,
                    ),
                    ActionView::GameOver,
                ],
            ),
            _ => RoomEffect::ignored(state),
        }
    }

    proof fn lemma_declines_quietly(&self, state: StateView, action: ActionView) {
    }

    fn handle_action(
        &mut self,
        state: &mut State,
        event_queue: &mut EventQueue,
        action: &Action,
    ) -> (r: ActionHandled) {
        proof {
            assert(old(event_queue)@.with_timers(Seq::empty()) =~= old(event_queue)@) by {
                assert(old(event_queue)@.timers + Seq::empty() =~= old(event_queue)@.timers);
            }
        }
        match action {
            Action::PickUpCrowbar => {
                if self.crowbar {
                    state.player.items.push(Item::Crowbar);
                    self.crowbar = false;
                    event_queue.schedule_action(
                        Action::Message(
                            String::from_str("You pick up the crowbar."),
                            GameEventType::Success,
                        ),
                    );
                } else {
                    event_queue.schedule_action(
                        Action::Message(
                            String::from_str("You already have the crowbar."),
                            GameEventType::Failure,
                        ),
                    );
                }
                proof {
                    let e = old(self).effect(old(state)@, action@);
                    assert(final(event_queue)@.actions =~= old(event_queue)@.actions + e.actions);
                }
                ActionHandled::Handled
            },
            Action::UseCasket => {
                event_queue.schedule_action(
                    Action::Message(
                        String::from_str(
                            "\"Reboot initiated.\" Those are the last words you hear as you slip back into cryosleep once again.",
                        ),
                        GameEventType::Success,
                    ),
                );
                event_queue.schedule_action(Action::GameOver);
                proof {
                    let e = old(self).effect(old(state)@, action@);
                    assert(final(event_queue)@.actions =~= old(event_queue)@.actions + e.actions);
                }
                ActionHandled::Handled
            },
            _ => {
                proof {
                    assert(old(event_queue)@.actions + Seq::empty() =~= old(event_queue)@.actions);
                }
                ActionHandled::NotHandled
            },
        }
    }

    fn is_opened(&self) -> (r: bool) {
        true
    }

    fn open(&mut self) {
    }

    fn visit(&mut self) {
        self.visited = true;
    }

    fn is_visited(&self) -> (r: bool) {
        self.visited
    }
}

/// The crowbar is taken once: whoever picks it up gets it and is told so,
/// and the cryobay notes that it is gone; whoever tries after that gets
/// nothing but a message that says so, and nothing else changes.
pub proof fn lemma_crowbar_is_taken_once(room: CryobayRoom, state: StateView)
    ensures
        !room.after_action(state, ActionView::PickUpCrowbar).crowbar,
        room.crowbar ==> room.effect(state, ActionView::PickUpCrowbar).state.player.items
            == state.player.items.push(Item::Crowbar),
        !room.crowbar ==> room.effect(state, ActionView::PickUpCrowbar) == RoomEffect::answered(
            state,
            seq![ActionView::Message("You already have the crowbar."@, GameEventType::Failure)],
        ) && room.after_action(state, ActionView::PickUpCrowbar) == room,
        room.after_action(state, ActionView::PickUpCrowbar).effect(
            room.effect(state, ActionView::PickUpCrowbar).state,
            ActionView::PickUpCrowbar,
        ).state == room.effect(state, ActionView::PickUpCrowbar).state,
{
}

} // verus!
