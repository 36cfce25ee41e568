//! The rooms of the ship: their names, how they connect and what is read
//! out on entering them.

use vstd::prelude::*;
use vstd::string::*;
use crate::action::{Action, ActionHandled, ActionView, actions_view};
use crate::dispatch::{App, AppView};
use crate::entities::enemy::Enemy;
use crate::event_queue::{EventQueue, EventQueueView};
use crate::game_event::{GameEventType, GameEventView};
use crate::sound::{AudioEvent, Track};
use crate::state::{State, StateView};
use crate::text::{decimal, str_eq, u64_to_string};
use crate::timer::{TimerView, timers_view};

verus! {

/// What a room makes of an action it is offered: whether it claims the
/// action, what becomes of the state of the world, and which actions and
/// timers it schedules.
pub struct RoomEffect {
    pub handled: ActionHandled,
    pub state: StateView,
    pub actions: Seq<ActionView>,
    pub timers: Seq<TimerView>,
}

impl RoomEffect {
    /// The effect of a room that does not care: nothing happens.
    pub open spec fn ignored(state: StateView) -> RoomEffect {
        RoomEffect {
            handled: ActionHandled::NotHandled,
            state,
            actions: Seq::empty(),
            timers: Seq::empty(),
        }
    }

    /// The effect of a room that claims the action and answers with
    /// messages or further actions; the state of the world stays.
    pub open spec fn answered(state: StateView, actions: Seq<ActionView>) -> RoomEffect {
        RoomEffect { handled: ActionHandled::Handled, state, actions, timers: Seq::empty() }
    }

    /// The queue after the effect's timers and actions were scheduled.
    pub open spec fn applied_to(self, queue: EventQueueView) -> EventQueueView {
        queue.with_timers(self.timers).with_actions(self.actions)
    }
}

/// A room: a place with flags of its own, which is offered every action
/// before the global rules see it.
pub trait Room: Sized {
    /// Whether the room can be entered.
    spec fn opened(&self) -> bool;

    /// Whether the player has been in the room.
    spec fn visited(&self) -> bool;

    /// The room once its door is open.
    spec fn after_open(&self) -> Self;

    /// The room once the player has been in it.
    spec fn after_visit(&self) -> Self;

    /// The room after it was offered `action` in `state`.
    spec fn after_action(&self, state: StateView, action: ActionView) -> Self;

    /// What the room makes of `action` in `state`.
    spec fn effect(&self, state: StateView, action: ActionView) -> RoomEffect;

    /// A room that does not claim an action leaves no trace: it schedules
    /// nothing, and the state and its own flags stay as they were.
    proof fn lemma_declines_quietly(&self, state: StateView, action: ActionView)
        ensures
            self.effect(state, action).handled == ActionHandled::NotHandled ==> self.effect(
                state,
                action,
            ) == RoomEffect::ignored(state) && self.after_action(state, action) == *self,
    ;

    /// Offers the room an action. The room says whether it claims it, and
    /// changes its flags, the state and the queue as `after_action` and
    /// `effect` say. If it does not claim the action, it changes nothing.
    fn handle_action(
        &mut self,
        state: &mut State,
        event_queue: &mut EventQueue,
        action: &Action,
    ) -> (r: ActionHandled)
        ensures
            *final(self) == old(self).after_action(old(state)@, action@),
            r == old(self).effect(old(state)@, action@).handled,
            final(state)@ == old(self).effect(old(state)@, action@).state,
            final(event_queue)@ == old(self).effect(old(state)@, action@).applied_to(
                old(event_queue)@,
            ),
            r == ActionHandled::NotHandled ==> *final(self) == *old(self) && final(state)@
                == old(state)@ && final(event_queue)@ == old(event_queue)@,
    ;

    /// Whether the room can be entered.
    fn is_opened(&self) -> (r: bool)
        ensures
            r == self.opened(),
    ;

    /// Opens the room's door.
    fn open(&mut self)
        ensures
            *final(self) == old(self).after_open(),
            final(self).opened(),
    ;

    /// Records that the player has been in the room.
    fn visit(&mut self)
        ensures
            *final(self) == old(self).after_visit(),
            final(self).visited(),
            final(self).opened() == old(self).opened(),
    ;

    /// Whether the player has been in the room.
    fn is_visited(&self) -> (r: bool)
        ensures
            r == self.visited(),
    ;
}

/// The identifier of a room.
#[derive(Debug, PartialEq, Eq, Structural, Hash, Clone, Copy)]
pub enum RoomType {
    Cryobay,
    SlushLobby,
    Cryocontrol,
    Corridor,
}

/// Milliseconds of reading time granted per character of narration.
pub const READING_MSECS_PER_CHAR: u64 = 50;

impl RoomType {
    /// The music that belongs to the room.
    pub open spec fn track(self) -> Track {
        match self {
            RoomType::Cryobay => Track::Intro,
            RoomType::Cryocontrol => Track::Complications,
            _ => Track::Loop,
        }
    }

    /// The music that belongs to the room.
    pub fn get_track(&self) -> (r: Track)
        ensures
            r == self.track(),
    {
        match self {
            RoomType::Cryobay => Track::Intro,
            RoomType::Cryocontrol => Track::Complications,
            _ => Track::Loop,
        }
    }
}

/// The name under which a room is shown to the player and typed by them.
pub open spec fn game_name(room_type: RoomType) -> Seq<char> {
    match room_type {
        RoomType::Cryobay => "cryobay"@,
        RoomType::SlushLobby => "slush lobby"@,
        RoomType::Cryocontrol => "cryocontrol"@,
        RoomType::Corridor => "ventilation shaft"@,
    }
}

/// The name under which a room is shown to the player and typed by them.
pub fn room_game_name(room_type: RoomType) -> (r: &'static str)
    ensures
        r@ == game_name(room_type),
{
    match room_type {
        RoomType::Cryobay => "cryobay",
        RoomType::SlushLobby => "slush lobby",
        RoomType::Cryocontrol => "cryocontrol",
        RoomType::Corridor => "ventilation shaft",
    }
}

/// The room that a typed name stands for, if any. Names match exactly.
pub open spec fn room_from_name(name: Seq<char>) -> Option<RoomType> {
    if name == "cryobay"@ {
        Some(RoomType::Cryobay)
    } else if name == "slush lobby"@ {
        Some(RoomType::SlushLobby)
    } else if name == "cryocontrol"@ {
        Some(RoomType::Cryocontrol)
    } else if name == "ventilation shaft"@ {
        Some(RoomType::Corridor)
    } else {
        None
    }
}

/// Looks a room up by the name the player typed.
pub fn room_type_from_name(room_name: &str) -> (r: Option<RoomType>)
    ensures
        r == room_from_name(room_name@),
{
    if str_eq(room_name, "cryobay") {
        Some(RoomType::Cryobay)
    } else if str_eq(room_name, "slush lobby") {
        Some(RoomType::SlushLobby)
    } else if str_eq(room_name, "cryocontrol") {
        Some(RoomType::Cryocontrol)
    } else if str_eq(room_name, "ventilation shaft") {
        Some(RoomType::Corridor)
    } else {
        None
    }
}

/// Every room is found again under its own name, and under no other room's.
pub proof fn lemma_room_name_round_trip(room_type: RoomType)
    ensures
        room_from_name(game_name(room_type)) == Some(room_type),
{
    reveal_strlit("cryobay");
    reveal_strlit("slush lobby");
    reveal_strlit("cryocontrol");
    reveal_strlit("ventilation shaft");
    assert("cryobay"@.len() == 7);
    assert("slush lobby"@.len() == 11);
    assert("cryocontrol"@.len() == 11);
    assert("ventilation shaft"@.len() == 17);
    assert("slush lobby"@[0] == 's');
    assert("cryocontrol"@[0] == 'c');
}

/// The rooms that can be reached from a room through one door.
pub open spec fn adjacency(room_type: RoomType) -> Seq<RoomType> {
    match room_type {
        RoomType::Cryobay => seq![RoomType::SlushLobby],
        RoomType::SlushLobby => seq![
            RoomType::Cryobay,
            RoomType::Cryocontrol,
            RoomType::Corridor,
        ],
        RoomType::Cryocontrol => seq![RoomType::SlushLobby],
        RoomType::Corridor => seq![RoomType::SlushLobby],
    }
}

/// Whether `to` can be reached from `from` through one door.
pub open spec fn is_adjacent(from: RoomType, to: RoomType) -> bool {
    match from {
        RoomType::SlushLobby => to != RoomType::SlushLobby,
        _ => to == RoomType::SlushLobby,
    }
}

/// The rooms that can be reached from a room through one door, in the
/// order in which the doors are read out.
pub fn adjacent_rooms(room_type: RoomType) -> (r: Vec<RoomType>)
    ensures
        r@ == adjacency(room_type),
{
    let r = match room_type {
        RoomType::Cryobay => vec![RoomType::SlushLobby],
        RoomType::SlushLobby => vec![RoomType::Cryobay, RoomType::Cryocontrol, RoomType::Corridor],
        RoomType::Cryocontrol => vec![RoomType::SlushLobby],
        RoomType::Corridor => vec![RoomType::SlushLobby],
    };
    assert(r@ =~= adjacency(room_type));
    r
}

/// Whether `to` can be reached from `from` through one door.
pub fn rooms_adjacent(from: RoomType, to: RoomType) -> (r: bool)
    ensures
        r == is_adjacent(from, to),
        r == adjacency(from).contains(to),
{
    proof {
        lemma_adjacency(from, to);
    }
    match from {
        RoomType::SlushLobby => to != RoomType::SlushLobby,
        _ => to == RoomType::SlushLobby,
    }
}

/// The list of doors holds exactly the adjacent rooms, each once; doors
/// lead both ways, and none leads back into its own room.
pub proof fn lemma_adjacency(from: RoomType, to: RoomType)
    ensures
        adjacency(from).contains(to) == is_adjacent(from, to),
        adjacency(from).no_duplicates(),
        is_adjacent(from, to) == is_adjacent(to, from),
        !is_adjacent(from, from),
        1 <= adjacency(from).len() <= 3,
{
    let s = adjacency(from);
    match from {
        RoomType::SlushLobby => {
            assert(s[0] == RoomType::Cryobay && s[1] == RoomType::Cryocontrol && s[2]
                == RoomType::Corridor);
        },
        _ => {
            assert(s[0] == RoomType::SlushLobby);
        },
    }
}

/// What is read out when the player enters a room: one text for a room
/// they have been in before, another for the first visit.
pub open spec fn intro_text(room_type: RoomType, visited: bool) -> Seq<char> {
    match room_type {
        RoomType::Cryobay => if visited {
            "You are back in the cryobay. The caskets hum quietly in the dark."@
        } else {
            "You wake up in a cryo casket, cold and dizzy. The bay around you is dark and most caskets are empty. A crowbar leans against the wall."@
        },
        RoomType::SlushLobby => if visited {
            "You are back in the slush lobby. Melted coolant still covers the floor."@
        } else {
            "You enter the slush lobby. Coolant has leaked from the pipes and frozen to slush on the floor. A heavy door leads to the cryo control room and a ventilation shaft opens near the ceiling."@
        },
        RoomType::Cryocontrol => if visited {
            "You are back in the cryo control room. The consoles flicker."@
        } else {
            "You enter the cryo control room. Rows of consoles flicker in the dark, and the central cortex of the ship's AI towers in the middle. Something is moving between the consoles."@
        },
        RoomType::Corridor => if visited {
            "You are back in the narrow corridor behind the ventilation shaft."@
        } else {
            "You crawl through the ventilation shaft and drop into a narrow corridor. It smells of dust and old cables. Something small scurries along the wall."@
        },
    }
}

/// The two texts of a room: the one for a repeated visit first, the one
/// for the first visit second.
pub fn room_intro_text(room_type: RoomType) -> (r: (&'static str, &'static str))
    ensures
        r.0@ == intro_text(room_type, true),
        r.1@ == intro_text(room_type, false),
{
    match room_type {
        RoomType::Cryobay => (
            "You are back in the cryobay. The caskets hum quietly in the dark.",
            "You wake up in a cryo casket, cold and dizzy. The bay around you is dark and most caskets are empty. A crowbar leans against the wall.",
        ),
        RoomType::SlushLobby => (
            "You are back in the slush lobby. Melted coolant still covers the floor.",
            "You enter the slush lobby. Coolant has leaked from the pipes and frozen to slush on the floor. A heavy door leads to the cryo control room and a ventilation shaft opens near the ceiling.",
        ),
        RoomType::Cryocontrol => (
            "You are back in the cryo control room. The consoles flicker.",
            "You enter the cryo control room. Rows of consoles flicker in the dark, and the central cortex of the ship's AI towers in the middle. Something is moving between the consoles.",
        ),
        RoomType::Corridor => (
            "You are back in the narrow corridor behind the ventilation shaft.",
            "You crawl through the ventilation shaft and drop into a narrow corridor. It smells of dust and old cables. Something small scurries along the wall.",
        ),
    }
}

/// The time it takes to read a room's text: fifty milliseconds for each
/// character.
pub open spec fn reading_time(room_type: RoomType, has_visited: bool) -> int {
    intro_text(room_type, has_visited).len() * READING_MSECS_PER_CHAR
}

/// No text is longer than a thousand characters.
pub proof fn lemma_intro_text_len(room_type: RoomType, visited: bool)
    ensures
        intro_text(room_type, visited).len() <= 1000,
{
    reveal_strlit("You are back in the cryobay. The caskets hum quietly in the dark.");
    reveal_strlit("You wake up in a cryo casket, cold and dizzy. The bay around you is dark and most caskets are empty. A crowbar leans against the wall.");
    reveal_strlit("You are back in the slush lobby. Melted coolant still covers the floor.");
    reveal_strlit("You enter the slush lobby. Coolant has leaked from the pipes and frozen to slush on the floor. A heavy door leads to the cryo control room and a ventilation shaft opens near the ceiling.");
    reveal_strlit("You are back in the cryo control room. The consoles flicker.");
    reveal_strlit("You enter the cryo control room. Rows of consoles flicker in the dark, and the central cortex of the ship's AI towers in the middle. Something is moving between the consoles.");
    reveal_strlit("You are back in the narrow corridor behind the ventilation shaft.");
    reveal_strlit("You crawl through the ventilation shaft and drop into a narrow corridor. It smells of dust and old cables. Something small scurries along the wall.");
}

/// The time, in milliseconds, granted for reading a room's text.
pub fn reading_time_msecs(room_type: RoomType, has_visited: bool) -> (r: u64)
    ensures
        r == reading_time(room_type, has_visited),
{
    let intros = room_intro_text(room_type);
    let msg = if has_visited {
        intros.0
    } else {
        intros.1
    };
    proof {
        lemma_intro_text_len(room_type, has_visited);
    }
    let chars = msg.unicode_len();
    (chars as u64) * READING_MSECS_PER_CHAR
}

/// What the player is told at a door that does not open.
pub open spec fn closed_text(room_type: RoomType) -> Seq<char> {
    match room_type {
        RoomType::Corridor => "Peering through the ventilation shafts, it looks like they connect to a corridor. You would need a tool to get through."@,
        _ => "The door to "@ + game_name(room_type) + " is closed and won't open."@,
    }
}

/// What the player is told at a door that does not open.
pub fn closed_message(room_type: RoomType) -> (r: String)
    ensures
        r@ == closed_text(room_type),
{
    match room_type {
        RoomType::Corridor => String::from_str(
            "Peering through the ventilation shafts, it looks like they connect to a corridor. You would need a tool to get through.",
        ),
        _ => {
            let mut r = String::from_str("The door to ");
            r.append(room_game_name(room_type));
            r.append(" is closed and won't open.");
            r
        },
    }
}

/// The lines that name the doors, one line for each room.
pub open spec fn door_lines(rooms: Seq<RoomType>) -> Seq<char>
    decreases rooms.len(),
{
    if rooms.len() == 0 {
        Seq::empty()
    } else {
        door_lines(rooms.drop_last()) + "  - "@ + game_name(rooms.last()) + "\n"@
    }
}

/// What the player is told of the doors of a room: how many there are,
/// and their names.
pub open spec fn doors_text(room_type: RoomType) -> Seq<char> {
    let rooms = adjacency(room_type);
    "\nYou see "@ + decimal(rooms.len()) + " door"@ + (if rooms.len() > 1 {
        "s"@
    } else {
        ""@
    }) + " labeled:\n"@ + door_lines(rooms)
}

/// What the player is told of the doors of a room.
pub fn doors_message(room_type: RoomType) -> (r: String)
    ensures
        r@ == doors_text(room_type),
{
    let available_rooms = adjacent_rooms(room_type);
    let plural = if available_rooms.len() > 1 {
        "s"
    } else {
        ""
    };
    let mut r = String::from_str("\nYou see ");
    r.append(u64_to_string(available_rooms.len() as u64).as_str());
    r.append(" door");
    r.append(plural);
    r.append(" labeled:\n");
    let ghost head = r@;
    let mut i: usize = 0;
    assert(available_rooms@.take(0) =~= Seq::empty());
    assert(head + door_lines(Seq::empty()) =~= head);
    while i < available_rooms.len()
        invariant
            i <= available_rooms.len(),
            r@ == head + door_lines(available_rooms@.take(i as int)),
        decreases available_rooms.len() - i,
    {
        let ghost before = r@;
        r.append("  - ");
        r.append(room_game_name(available_rooms[i]));
        r.append("\n");
        proof {
            let seen = available_rooms@.take(i as int);
            let next = available_rooms@.take(i + 1);
            assert(next.drop_last() =~= seen);
            assert(next.last() == available_rooms@[i as int]);
            assert(r@ =~= head + door_lines(next));
        }
        i += 1;
    }
    assert(available_rooms@.take(i as int) =~= available_rooms@);
    r
}

/// What a room adds to its description when the player enters it: in the
/// cryo control room, once visited and cleared of its enemy, the terminal
/// is pointed out.
pub open spec fn room_specific(world: AppView, room_type: RoomType) -> Seq<ActionView> {
    if room_type == RoomType::Cryocontrol && world.rooms.visited(room_type)
        && world.state.enemy_in(room_type) is None {
        seq![
            ActionView::Message(
                "The central cortex rumbles uneasily. There's a terminal in front of it."@,
                GameEventType::Normal,
            ),
        ]
    } else {
        Seq::empty()
    }
}

/// The attack timers that entering a room starts: those of the room's
/// enemy, put off by the time it takes to read the room's text. A room
/// without an enemy starts none.
pub open spec fn entry_timers(world: AppView, room_type: RoomType) -> Seq<TimerView> {
    match world.state.enemy_in(room_type) {
        Some(enemy) => enemy.attack_timers(
            reading_time(room_type, world.rooms.visited(room_type)) as u64,
        ),
        None => Seq::empty(),
    }
}

impl AppView {
    /// The world after the player has entered a room: the room is the
    /// current one and counts as visited; its music is asked for; the
    /// doors are logged; what the room adds and then its text, chosen by
    /// whether the player had been there before, are scheduled; and the
    /// attack timers of its enemy, if it has one, are started.
    pub open spec fn entered(self, room_type: RoomType) -> AppView {
        AppView {
            log: seq![
                GameEventView {
                    content: doors_text(room_type),
                    game_event_type: GameEventType::Normal,
                },
            ] + self.log,
            input: self.input,
            state: StateView { current_room: room_type, ..self.state },
            rooms: self.rooms.after_visit(room_type),
            event_queue: EventQueueView {
                actions: self.event_queue.actions.push(
                    ActionView::Audio(AudioEvent::Track(room_type.track())),
                ) + room_specific(self, room_type) + seq![
                    ActionView::Message(
                        intro_text(room_type, self.rooms.visited(room_type)),
                        GameEventType::Normal,
                    ),
                ],
                timers: self.event_queue.timers + entry_timers(self, room_type),
            },
        }
    }
}

/// What entering a room comes to: the room is where the player is and
/// counts as visited, whether the player had been there decides which text
/// is read out, so that the text of the first visit is read out once and
/// never again; and a room without an enemy starts no timer.
pub proof fn lemma_entered(world: AppView, room_type: RoomType)
    ensures
        world.entered(room_type).state.current_room == room_type,
        world.entered(room_type).rooms.visited(room_type),
        world.entered(room_type).rooms.opened(room_type) == world.rooms.opened(room_type),
        world.entered(room_type).event_queue.actions.last() == ActionView::Message(
            intro_text(room_type, world.rooms.visited(room_type)),
            GameEventType::Normal,
        ),
        world.entered(room_type).entered(room_type).event_queue.actions.last()
            == ActionView::Message(intro_text(room_type, true), GameEventType::Normal),
        world.state.enemy_in(room_type) is None ==> world.entered(room_type).event_queue.timers
            == world.event_queue.timers,
        world.entered(room_type).state.enemies == world.state.enemies,
        world.entered(room_type).state.player == world.state.player,
{
    assert(world.event_queue.timers + Seq::<TimerView>::empty() =~= world.event_queue.timers);
}

/// Asks for the music of a room.
fn change_music(app: &mut App, room_type: RoomType)
    ensures
        final(app)@ == old(app)@.scheduled(ActionView::Audio(AudioEvent::Track(room_type.track()))),
{
    app.event_queue.schedule_action(Action::Audio(AudioEvent::Track(room_type.get_track())));
}

/// What a room adds to its description when the player enters it.
fn room_specific_actions(app: &App, room_type: RoomType) -> (r: Vec<Action>)
    ensures
        actions_view(r@) == room_specific(app@, room_type),
{
    let r = match room_type {
        RoomType::Cryocontrol => {
            if app.rooms.is_visited(room_type) && app.state.get_current_enemy(room_type).is_none() {
                vec![
                    Action::Message(
                        String::from_str(
                            "The central cortex rumbles uneasily. There's a terminal in front of it.",
                        ),
                        GameEventType::Normal,
                    ),
                ]
            } else {
                vec![]
            }
        },
        _ => vec![],
    };
    assert(actions_view(r@) =~= room_specific(app@, room_type));
    r
}

/// Moves the player into a room. Whether the player had been there before
/// is read before the visit is recorded, so that the text of the first
/// visit is read out once.
pub fn enter_room(app: &mut App, room_type: RoomType)
    ensures
        final(app)@ == old(app)@.entered(room_type),
{
    change_music(app, room_type);

    app.state.current_room = room_type;
    app.log_event(doors_message(room_type), GameEventType::Normal);

    let specific = room_specific_actions(app, room_type);
    app.event_queue.schedule_actions(specific);

    let has_visited = app.rooms.is_visited(room_type);
    let intros = room_intro_text(room_type);
    if has_visited {
        app.tell(String::from_str(intros.0), GameEventType::Normal);
    } else {
        app.tell(String::from_str(intros.1), GameEventType::Normal);
    }
    app.rooms.visit(room_type);

    let delay = reading_time_msecs(room_type, has_visited);
    let timers = match app.state.get_current_enemy(room_type) {
        Some(enemy) => enemy.get_attack_timers(delay),
        None => Vec::new(),
    };
    assert(timers_view(timers@) =~= entry_timers(old(app)@, room_type));
    app.event_queue.schedule_timers(timers);
    proof {
        let end = old(app)@.entered(room_type);
        assert(final(app)@.event_queue.actions =~= end.event_queue.actions);
        assert(final(app)@.event_queue.timers =~= end.event_queue.timers);
        assert(final(app)@.log =~= end.log);
    }
}

} // verus!
