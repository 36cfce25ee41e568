//! The cryo control room, where the roomba guards the terminal that
//! reboots the ship.

use vstd::prelude::*;
use vstd::string::*;
use crate::action::{Action, ActionHandled, ActionView};
use crate::entities::enemy::Enemy;
use crate::event_queue::EventQueue;
use crate::game_event::GameEventType;
use crate::room::{Room, RoomEffect};
use crate::state::{State, StateView};
use crate::text::{decimal, u64_to_string};
use crate::timer::{Timer, TimerType, TimerView};

verus! {

/// Milliseconds between the use of the terminal and the reboot.
pub const TIME_TO_REBOOT: u64 = 20_000;

/// The cryo control room and its flags.
#[derive(Debug, Clone, Copy, PartialEq, Eq, Structural)]
pub struct Cryocontrol {
    pub visited: bool,
    pub lever: bool,
    pub opened: bool,
}

/// The countdown that the terminal starts.
pub open spec fn reboot_timer() -> TimerView {
    TimerView {
        timer_type: TimerType::Reboot,
        label: "Reboot countdown"@,
        elapsed: 0,
        duration: TIME_TO_REBOOT,
        action: ActionView::Rebooted,
        is_visual: true,
    }
}

/// What the terminal announces: the seconds that are left to the reboot.
pub open spec fn reboot_announcement() -> Seq<char> {
    "The AI's voice is slowly dying. \"Rebooting System in "@ + decimal(
        (TIME_TO_REBOOT / 1000) as nat,
    )
        + " seconds... boot process, life support systems will be offline. All passengers, please enter cryosleep caskets immediately."@
}

impl Cryocontrol {
    /// The cryo control room at the start: shut and not visited.
    pub fn new() -> (r: Cryocontrol)
        ensures
            r == (Cryocontrol { visited: false, lever: false, opened: false }),
    {
        Cryocontrol { visited: false, lever: false, opened: false }
    }
}

impl Room for Cryocontrol {
    open spec fn opened(&self) -> bool {
        self.opened
    }

    open spec fn visited(&self) -> bool {
        self.visited
    }

    open spec fn after_open(&self) -> Self {
        Cryocontrol { opened: true, ..*self }
    }

    open spec fn after_visit(&self) -> Self {
        Cryocontrol { visited: true, ..*self }
    }

    open spec fn after_action(&self, state: StateView, action: ActionView) -> Self {
        match action {
            ActionView::OpenCryoControl => Cryocontrol { opened: true, ..*self },
            _ => *self,
        }
    }

    open spec fn effect(&self, state: StateView, action: ActionView) -> RoomEffect {
        match action {
            ActionView::UseTerminal => match state.current_enemy() {
                Some(enemy) => RoomEffect::answered(
                    state,
                    seq![
                        ActionView::Message(
                            "The "@ + enemy.enemy_type.name()
                                + " is blocking you from getting to the terminal."@,
                            GameEventType::Failure,
                        ),
                    ],
                ),
                None => RoomEffect {
                    handled: ActionHandled::Handled,
                    state,
                    actions: seq![
                        ActionView::Message(reboot_announcement(), GameEventType::Success),
                    ],
                    timers: seq![reboot_timer()],
                },
            },
            ActionView::OpenCryoControl => if !self.opened {
                RoomEffect::answered(
                    state,
                    seq![
                        ActionView::Message(
                            "You open the cryo control door."@,
                            GameEventType::Success,
                        ),
                    ],
                )
            } else {
                RoomEffect::answered(
                    state,
                    seq![
                        ActionView::Message(
                            "The cryo control door is already open."@,
                            GameEventType::Failure,
                        ),
                    ],
                )
            },
            _ => RoomEffect::ignored(state),
        }
    }

    proof fn lemma_declines_quietly(&self, state: StateView, action: ActionView) {
    }

    fn handle_action(
        &mut self,
        state: &mut State,
        event_queue: &mut EventQueue,
        action: &Action,
    ) -> (r: ActionHandled) {
        proof {
            assert(old(event_queue)@.with_timers(Seq::empty()) =~= old(event_queue)@) by {
                assert(old(event_queue)@.timers + Seq::empty() =~= old(event_queue)@.timers);
            }
            assert(old(event_queue)@.actions + Seq::empty() =~= old(event_queue)@.actions);
        }
        match action {
            Action::UseTerminal => {
                if let Some(enemy) = state.get_current_enemy(state.current_room) {
                    let mut text = String::from_str("The ");
                    text.append(enemy.get_enemy_type().display_name());
                    text.append(" is blocking you from getting to the terminal.");
                    event_queue.schedule_action(Action::Message(text, GameEventType::Failure));
                    proof {
                        let e = old(self).effect(old(state)@, action@);
                        assert(final(event_queue)@.actions =~= old(event_queue)@.actions
                            + e.actions);
                    }
                    return ActionHandled::Handled;
                }
                let mut announcement = String::from_str(
                    "The AI's voice is slowly dying. \"Rebooting System in ",
                );
                announcement.append(u64_to_string(TIME_TO_REBOOT / 1000).as_str());
                announcement.append(
                    " seconds... boot process, life support systems will be offline. All passengers, please enter cryosleep caskets immediately.",
                );
                event_queue.schedule_action(Action::Message(announcement, GameEventType::Success));
                event_queue.schedule_timer(
                    Timer::new(
                        TimerType::Reboot,
                        "Reboot countdown",
                        0,
                        TIME_TO_REBOOT,
                        Action::Rebooted,
                        true,
                    ),
                );
                proof {
                    let e = old(self).effect(old(state)@, action@);
                    assert(final(event_queue)@.actions =~= old(event_queue)@.actions + e.actions);
                    assert(final(event_queue)@.timers =~= old(event_queue)@.timers + e.timers);
                }
                ActionHandled::Handled
            },
            Action::OpenCryoControl => {
                if !self.opened {
                    self.opened = true;
                    event_queue.schedule_action(
                        Action::Message(
                            String::from_str("You open the cryo control door."),
                            GameEventType::Success,
                        ),
                    );
                } else {
                    event_queue.schedule_action(
                        Action::Message(
                            String::from_str("The cryo control door is already open."),
                            GameEventType::Failure,
                        ),
                    );
                }
                proof {
                    let e = old(self).effect(old(state)@, action@);
                    assert(final(event_queue)@.actions =~= old(event_queue)@.actions + e.actions);
                }
                ActionHandled::Handled
            },
            _ => ActionHandled::NotHandled,
        }
    }

    fn is_opened(&self) -> (r: bool) {
        self.opened
    }

    fn open(&mut self) {
        self.opened = true
    }

    fn visit(&mut self) {
        self.visited = true;
    }

    fn is_visited(&self) -> (r: bool) {
        self.visited
    }
}

} // verus!
