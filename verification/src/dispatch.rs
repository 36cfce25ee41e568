//! The dispatch of actions: the world that handlers work on, and the rule
//! that every room is offered an action before the global rules see it.

use vstd::prelude::*;
use std::collections::VecDeque;
use crate::action::{Action, ActionHandled, ActionView};
use crate::commands;
use crate::event_queue::{EventQueue, EventQueueView};
use crate::game_event::{GameEvent, GameEventType, GameEventView};
use crate::room::{Room, RoomEffect, RoomType};
use crate::rooms::corridor::CorridorRoom;
use crate::rooms::cryobay::CryobayRoom;
use crate::rooms::cryocontrol::Cryocontrol;
use crate::rooms::slush_lobby::SlushLobbyRoom;
use crate::state::{State, StateView};

verus! {

/// The rooms of the ship, one of each, under the room's identifier.
#[derive(Debug, Clone, Copy, PartialEq, Eq, Structural)]
pub struct Rooms {
    pub cryobay: CryobayRoom,
    pub slush_lobby: SlushLobbyRoom,
    pub cryocontrol: Cryocontrol,
    pub corridor: CorridorRoom,
}

impl Rooms {
    /// Whether a room can be entered.
    pub open spec fn opened(self, room_type: RoomType) -> bool {
        match room_type {
            RoomType::Cryobay => self.cryobay.opened(),
            RoomType::SlushLobby => self.slush_lobby.opened(),
            RoomType::Cryocontrol => self.cryocontrol.opened(),
            RoomType::Corridor => self.corridor.opened(),
        }
    }

    /// Whether the player has been in a room.
    pub open spec fn visited(self, room_type: RoomType) -> bool {
        match room_type {
            RoomType::Cryobay => self.cryobay.visited(),
            RoomType::SlushLobby => self.slush_lobby.visited(),
            RoomType::Cryocontrol => self.cryocontrol.visited(),
            RoomType::Corridor => self.corridor.visited(),
        }
    }

    /// The rooms once the player has been in one of them.
    pub open spec fn after_visit(self, room_type: RoomType) -> Rooms {
        match room_type {
            RoomType::Cryobay => Rooms { cryobay: self.cryobay.after_visit(), ..self },
            RoomType::SlushLobby => Rooms { slush_lobby: self.slush_lobby.after_visit(), ..self },
            RoomType::Cryocontrol => Rooms { cryocontrol: self.cryocontrol.after_visit(), ..self },
            RoomType::Corridor => Rooms { corridor: self.corridor.after_visit(), ..self },
        }
    }

    /// The rooms once the door of one of them is open.
    pub open spec fn after_open(self, room_type: RoomType) -> Rooms {
        match room_type {
            RoomType::Cryobay => Rooms { cryobay: self.cryobay.after_open(), ..self },
            RoomType::SlushLobby => Rooms { slush_lobby: self.slush_lobby.after_open(), ..self },
            RoomType::Cryocontrol => Rooms { cryocontrol: self.cryocontrol.after_open(), ..self },
            RoomType::Corridor => Rooms { corridor: self.corridor.after_open(), ..self },
        }
    }

    /// The rooms as they are at the start of a session.
    pub fn new() -> (r: Rooms)
        ensures
            r.cryobay == (CryobayRoom {
                visited: false,
                lever: false,
                crowbar: true,
                casket_locked: true,
            }),
            r.slush_lobby == (SlushLobbyRoom {
                visited: false,
                door_opened: false,
                shaft_opened: false,
            }),
            r.cryocontrol == (Cryocontrol { visited: false, lever: false, opened: false }),
            r.corridor == (CorridorRoom { visited: false, keycard: true, opened: false }),
    {
        Rooms {
            cryobay: CryobayRoom::new(),
            slush_lobby: SlushLobbyRoom::new(),
            cryocontrol: Cryocontrol::new(),
            corridor: CorridorRoom::new(),
        }
    }

    /// Whether a room can be entered.
    pub fn is_opened(&self, room_type: RoomType) -> (r: bool)
        ensures
            r == self.opened(room_type),
    {
        match room_type {
            RoomType::Cryobay => self.cryobay.is_opened(),
            RoomType::SlushLobby => self.slush_lobby.is_opened(),
            RoomType::Cryocontrol => self.cryocontrol.is_opened(),
            RoomType::Corridor => self.corridor.is_opened(),
        }
    }

    /// Whether the player has been in a room.
    pub fn is_visited(&self, room_type: RoomType) -> (r: bool)
        ensures
            r == self.visited(room_type),
    {
        match room_type {
            RoomType::Cryobay => self.cryobay.is_visited(),
            RoomType::SlushLobby => self.slush_lobby.is_visited(),
            RoomType::Cryocontrol => self.cryocontrol.is_visited(),
            RoomType::Corridor => self.corridor.is_visited(),
        }
    }

    /// Records that the player has been in a room. Recording it twice is
    /// the same as recording it once.
    pub fn visit(&mut self, room_type: RoomType)
        ensures
            *final(self) == old(self).after_visit(room_type),
            final(self).visited(room_type),
            final(self).after_visit(room_type) == *final(self),
    {
        match room_type {
            RoomType::Cryobay => self.cryobay.visit(),
            RoomType::SlushLobby => self.slush_lobby.visit(),
            RoomType::Cryocontrol => self.cryocontrol.visit(),
            RoomType::Corridor => self.corridor.visit(),
        }
    }

    /// Opens the door of a room.
    pub fn open(&mut self, room_type: RoomType)
        ensures
            *final(self) == old(self).after_open(room_type),
            final(self).opened(room_type),
    {
        match room_type {
            RoomType::Cryobay => self.cryobay.open(),
            RoomType::SlushLobby => self.slush_lobby.open(),
            RoomType::Cryocontrol => self.cryocontrol.open(),
            RoomType::Corridor => self.corridor.open(),
        }
    }
}

/// The world that handlers work on: the log, the state, the rooms and the
/// event queue. It is made once and handed to every handler in turn.
#[derive(Debug)]
pub struct App {
    /// The narrated events, the most recent first.
    pub log: VecDeque<GameEvent>,
    /// The line that the player is typing.
    pub input: String,
    /// The global game state.
    pub state: State,
    /// The rooms.
    pub rooms: Rooms,
    /// The pending actions and active timers.
    pub event_queue: EventQueue,
}

/// The world as plain values. `log[0]` is the most recent entry.
pub struct AppView {
    pub log: Seq<GameEventView>,
    pub input: Seq<char>,
    pub state: StateView,
    pub rooms: Rooms,
    pub event_queue: EventQueueView,
}

/// The views of a sequence of log entries, in order.
pub open spec fn log_view(log: Seq<GameEvent>) -> Seq<GameEventView> {
    log.map_values(|e: GameEvent| e@)
}

impl View for App {
    type V = AppView;

    open spec fn view(&self) -> AppView {
        AppView {
            log: log_view(self.log@),
            input: self.input@,
            state: self.state@,
            rooms: self.rooms,
            event_queue: self.event_queue@,
        }
    }
}

impl AppView {
    /// The world with one more log entry, which becomes the most recent.
    pub open spec fn logged(self, content: Seq<char>, kind: GameEventType) -> AppView {
        AppView {
            log: seq![GameEventView { content, game_event_type: kind }] + self.log,
            ..self
        }
    }

    /// The world with one more action at the back of the queue.
    pub open spec fn scheduled(self, action: ActionView) -> AppView {
        AppView { event_queue: self.event_queue.with_action(action), ..self }
    }

    /// The world with a message at the back of the queue.
    pub open spec fn told(self, text: Seq<char>, kind: GameEventType) -> AppView {
        self.scheduled(ActionView::Message(text, kind))
    }

    /// The world after a room has had its effect on it: the state is what
    /// the room made of it, and the room's timers and actions are
    /// scheduled. The log and the rooms of the ship are as they were.
    pub open spec fn offered_to(self, effect: RoomEffect) -> AppView {
        AppView { state: effect.state, event_queue: effect.applied_to(self.event_queue), ..self }
    }

    /// The world after the cryobay was offered `action`.
    pub open spec fn offered_to_cryobay(self, action: ActionView) -> AppView {
        let effect = self.rooms.cryobay.effect(self.state, action);
        AppView {
            rooms: Rooms {
                cryobay: self.rooms.cryobay.after_action(self.state, action),
                ..self.rooms
            },
            state: effect.state,
            event_queue: effect.applied_to(self.event_queue),
            ..self
        }
    }

    /// The world after the slush lobby was offered `action`.
    pub open spec fn offered_to_slush_lobby(self, action: ActionView) -> AppView {
        let effect = self.rooms.slush_lobby.effect(self.state, action);
        AppView {
            rooms: Rooms {
                slush_lobby: self.rooms.slush_lobby.after_action(self.state, action),
                ..self.rooms
            },
            state: effect.state,
            event_queue: effect.applied_to(self.event_queue),
            ..self
        }
    }

    /// The world after the cryo control room was offered `action`.
    pub open spec fn offered_to_cryocontrol(self, action: ActionView) -> AppView {
        let effect = self.rooms.cryocontrol.effect(self.state, action);
        AppView {
            rooms: Rooms {
                cryocontrol: self.rooms.cryocontrol.after_action(self.state, action),
                ..self.rooms
            },
            state: effect.state,
            event_queue: effect.applied_to(self.event_queue),
            ..self
        }
    }

    /// The world after the corridor was offered `action`.
    pub open spec fn offered_to_corridor(self, action: ActionView) -> AppView {
        let effect = self.rooms.corridor.effect(self.state, action);
        AppView {
            rooms: Rooms {
                corridor: self.rooms.corridor.after_action(self.state, action),
                ..self.rooms
            },
            state: effect.state,
            event_queue: effect.applied_to(self.event_queue),
            ..self
        }
    }

    /// Whether the cryobay claims `action`.
    pub open spec fn cryobay_claims(self, action: ActionView) -> bool {
        self.rooms.cryobay.effect(self.state, action).handled == ActionHandled::Handled
    }

    /// Whether the slush lobby claims `action`.
    pub open spec fn slush_lobby_claims(self, action: ActionView) -> bool {
        self.rooms.slush_lobby.effect(self.state, action).handled == ActionHandled::Handled
    }

    /// Whether the cryo control room claims `action`.
    pub open spec fn cryocontrol_claims(self, action: ActionView) -> bool {
        self.rooms.cryocontrol.effect(self.state, action).handled == ActionHandled::Handled
    }

    /// Whether the corridor claims `action`.
    pub open spec fn corridor_claims(self, action: ActionView) -> bool {
        self.rooms.corridor.effect(self.state, action).handled == ActionHandled::Handled
    }

    /// The world after the rooms were offered `action`, one after the
    /// other, up to and including the first that claimed it; and whether
    /// one did.
    pub open spec fn room_dispatch(self, action: ActionView) -> (AppView, ActionHandled) {
        let first = self.offered_to_cryobay(action);
        if self.cryobay_claims(action) {
            (first, ActionHandled::Handled)
        } else {
            let second = first.offered_to_slush_lobby(action);
            if first.slush_lobby_claims(action) {
                (second, ActionHandled::Handled)
            } else {
                let third = second.offered_to_cryocontrol(action);
                if second.cryocontrol_claims(action) {
                    (third, ActionHandled::Handled)
                } else {
                    let fourth = third.offered_to_corridor(action);
                    if third.corridor_claims(action) {
                        (fourth, ActionHandled::Handled)
                    } else {
                        (fourth, ActionHandled::NotHandled)
                    }
                }
            }
        }
    }

    /// The world after the player's line was turned into actions and
    /// these were scheduled.
    pub open spec fn commanded(self, text: Seq<char>) -> AppView {
        AppView {
            event_queue: self.event_queue.with_actions(
                commands::command_actions(text, self.state.current_room),
            ),
            ..self
        }
    }
}

impl App {
    /// A world with the given state, the rooms as they are at the start,
    /// an empty log, an empty input line and an empty queue.
    pub fn new(state: State) -> (r: Self)
        ensures
            r@.log == Seq::<GameEventView>::empty(),
            r@.input == Seq::<char>::empty(),
            r@.state == state@,
            r@.event_queue == EventQueueView::empty(),
            r.rooms.cryobay == (CryobayRoom {
                visited: false,
                lever: false,
                crowbar: true,
                casket_locked: true,
            }),
            r.rooms.slush_lobby == (SlushLobbyRoom {
                visited: false,
                door_opened: false,
                shaft_opened: false,
            }),
            r.rooms.cryocontrol == (Cryocontrol { visited: false, lever: false, opened: false }),
            r.rooms.corridor == (CorridorRoom { visited: false, keycard: true, opened: false }),
    {
        let r = App {
            log: VecDeque::new(),
            input: String::new(),
            state,
            rooms: Rooms::new(),
            event_queue: EventQueue::new(),
        };
        assert(r@.log =~= Seq::<GameEventView>::empty());
        r
    }

    /// Puts an entry at the front of the log.
    pub fn log_event(&mut self, content: String, kind: GameEventType)
        ensures
            final(self)@ == old(self)@.logged(content@, kind),
    {
        self.log.push_front(GameEvent { content, game_event_type: kind });
        assert(final(self)@.log =~= old(self)@.logged(content@, kind).log);
    }

    /// Puts a message at the back of the queue.
    pub fn tell(&mut self, text: String, kind: GameEventType)
        ensures
            final(self)@ == old(self)@.told(text@, kind),
    {
        self.event_queue.schedule_action(Action::Message(text, kind));
    }

    /// Offers an action to the rooms, one after the other. The first room
    /// that claims it ends the round: no other room is offered it.
    pub fn try_handle_room_action(&mut self, action: &Action) -> (r: ActionHandled)
        ensures
            (final(self)@, r) == old(self)@.room_dispatch(action@),
            final(self)@.log == old(self)@.log,
    {
        match self.rooms.cryobay.handle_action(&mut self.state, &mut self.event_queue, action) {
            ActionHandled::Handled => return ActionHandled::Handled,
            _ => (),
        }
        match self.rooms.slush_lobby.handle_action(&mut self.state, &mut self.event_queue, action) {
            ActionHandled::Handled => return ActionHandled::Handled,
            _ => (),
        }
        match self.rooms.cryocontrol.handle_action(&mut self.state, &mut self.event_queue, action) {
            ActionHandled::Handled => return ActionHandled::Handled,
            _ => (),
        }
        match self.rooms.corridor.handle_action(&mut self.state, &mut self.event_queue, action) {
            ActionHandled::Handled => return ActionHandled::Handled,
            _ => (),
        }
        ActionHandled::NotHandled
    }

    /// Turns the player's line into actions and schedules them.
    pub fn try_handle_command(&mut self, tokens: String)
        ensures
            final(self)@ == old(self)@.commanded(tokens@),
    {
        let actions = commands::try_handle_command(tokens, &self.state);
        self.event_queue.schedule_actions(actions);
    }
}

/// At most one room claims an action, whatever the state each is asked in,
/// and a room that does not claim leaves no trace.
pub proof fn lemma_rooms_claim_apart(
    first: AppView,
    second: AppView,
    third: AppView,
    fourth: AppView,
    action: ActionView,
)
    ensures
        !(first.cryobay_claims(action) && second.slush_lobby_claims(action)),
        !(first.cryobay_claims(action) && third.cryocontrol_claims(action)),
        !(first.cryobay_claims(action) && fourth.corridor_claims(action)),
        !(second.slush_lobby_claims(action) && third.cryocontrol_claims(action)),
        !(second.slush_lobby_claims(action) && fourth.corridor_claims(action)),
        !(third.cryocontrol_claims(action) && fourth.corridor_claims(action)),
        !first.cryobay_claims(action) ==> first.offered_to_cryobay(action) == first,
        !second.slush_lobby_claims(action) ==> second.offered_to_slush_lobby(action) == second,
        !third.cryocontrol_claims(action) ==> third.offered_to_cryocontrol(action) == third,
        !fourth.corridor_claims(action) ==> fourth.offered_to_corridor(action) == fourth,
{
    lemma_nothing_applied(first.event_queue);
    lemma_nothing_applied(second.event_queue);
    lemma_nothing_applied(third.event_queue);
    lemma_nothing_applied(fourth.event_queue);
}

/// Scheduling nothing leaves a queue as it is.
pub proof fn lemma_nothing_applied(queue: EventQueueView)
    ensures
        queue.with_timers(Seq::empty()).with_actions(Seq::empty()) == queue,
{
    assert(queue.timers + Seq::empty() =~= queue.timers);
    assert(queue.actions + Seq::empty() =~= queue.actions);
}

/// The room that claims an action is the only one to act on it: the world
/// after the round is the world after that room alone was offered the
/// action. The log is never touched by a room, and an action that no room
/// claims leaves the world as it was.
pub proof fn lemma_claiming_room_acts_alone(world: AppView, action: ActionView)
    ensures
        world.room_dispatch(action).0.log == world.log,
        world.cryobay_claims(action) ==> world.room_dispatch(action) == (
            world.offered_to_cryobay(action),
            ActionHandled::Handled,
        ),
        world.slush_lobby_claims(action) ==> world.room_dispatch(action) == (
            world.offered_to_slush_lobby(action),
            ActionHandled::Handled,
        ),
        world.cryocontrol_claims(action) ==> world.room_dispatch(action) == (
            world.offered_to_cryocontrol(action),
            ActionHandled::Handled,
        ),
        world.corridor_claims(action) ==> world.room_dispatch(action) == (
            world.offered_to_corridor(action),
            ActionHandled::Handled,
        ),
        world.room_dispatch(action).1 == ActionHandled::Handled <==> (world.cryobay_claims(action)
            || world.slush_lobby_claims(action) || world.cryocontrol_claims(action)
            || world.corridor_claims(action)),
        world.room_dispatch(action).1 == ActionHandled::NotHandled ==> world.room_dispatch(
            action,
        ).0 == world,
{
    lemma_rooms_claim_apart(world, world, world, world, action);
}

} // verus!
