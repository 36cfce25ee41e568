use cryo_quest::action::{Action, ActionHandled};
use cryo_quest::dispatch::{App, Rooms};
use cryo_quest::entities::enemy::{Enemy, initialize_enemies, EnemyType, GenericEnemy};
use cryo_quest::entities::player::Item;
use cryo_quest::event_queue::EventQueue;
use cryo_quest::game_event::GameEventType;
use cryo_quest::global_handlers::handle_action;
use cryo_quest::room::{
    adjacent_rooms, closed_message, doors_message, enter_room, reading_time_msecs,
    room_game_name, room_intro_text, room_type_from_name, rooms_adjacent, Room, RoomType,
};
use cryo_quest::rooms::{CorridorRoom, CryobayRoom, Cryocontrol, SlushLobbyRoom};
use cryo_quest::sound::{AudioEvent, Effect, Track};
use cryo_quest::state::State;
use cryo_quest::timer::TimerType;

const ALL_ROOMS: [RoomType; 4] = [
    RoomType::Cryobay,
    RoomType::SlushLobby,
    RoomType::Cryocontrol,
    RoomType::Corridor,
];

fn drain_actions(queue: &mut EventQueue) -> Vec<Action> {
    let mut out = vec![];
    while let Some(a) = queue.get_next_action() {
        out.push(a);
    }
    out
}

fn message(text: &str, kind: GameEventType) -> Action {
    Action::Message(text.to_string(), kind)
}

#[test]
fn room_names_round_trip() {
    for room in ALL_ROOMS {
        assert_eq!(room_type_from_name(room_game_name(room)), Some(room));
    }
    assert_eq!(room_game_name(RoomType::Cryobay), "cryobay");
    assert_eq!(room_game_name(RoomType::SlushLobby), "slush lobby");
    assert_eq!(room_game_name(RoomType::Cryocontrol), "cryocontrol");
    assert_eq!(room_game_name(RoomType::Corridor), "ventilation shaft");
}

#[test]
fn unknown_room_names_are_not_found() {
    assert_eq!(room_type_from_name(""), None);
    assert_eq!(room_type_from_name("Cryobay"), None);
    assert_eq!(room_type_from_name("cryobay "), None);
    assert_eq!(room_type_from_name("corridor"), None);
    assert_eq!(room_type_from_name("nonexistent room"), None);
}

#[test]
fn adjacency_is_as_the_map_shows() {
    assert_eq!(adjacent_rooms(RoomType::Cryobay), vec![RoomType::SlushLobby]);
    assert_eq!(
        adjacent_rooms(RoomType::SlushLobby),
        vec![RoomType::Cryobay, RoomType::Cryocontrol, RoomType::Corridor]
    );
    assert_eq!(adjacent_rooms(RoomType::Cryocontrol), vec![RoomType::SlushLobby]);
    assert_eq!(adjacent_rooms(RoomType::Corridor), vec![RoomType::SlushLobby]);
}

#[test]
fn adjacency_is_symmetric_and_irreflexive() {
    for a in ALL_ROOMS {
        assert!(!rooms_adjacent(a, a));
        for b in ALL_ROOMS {
            assert_eq!(rooms_adjacent(a, b), rooms_adjacent(b, a));
            assert_eq!(rooms_adjacent(a, b), adjacent_rooms(a).contains(&b));
        }
    }
}

#[test]
fn tracks_of_rooms() {
    assert_eq!(RoomType::Cryobay.get_track(), Track::Intro);
    assert_eq!(RoomType::Cryocontrol.get_track(), Track::Complications);
    assert_eq!(RoomType::SlushLobby.get_track(), Track::Loop);
    assert_eq!(RoomType::Corridor.get_track(), Track::Loop);
}

#[test]
fn closed_messages() {
    assert_eq!(
        closed_message(RoomType::Corridor),
        "Peering through the ventilation shafts, it looks like they connect to a corridor. You would need a tool to get through."
    );
    assert_eq!(
        closed_message(RoomType::Cryocontrol),
        "The door to cryocontrol is closed and won't open."
    );
    assert_eq!(
        closed_message(RoomType::SlushLobby),
        "The door to slush lobby is closed and won't open."
    );
}

#[test]
fn doors_messages() {
    assert_eq!(
        doors_message(RoomType::Cryobay),
        "\nYou see 1 door labeled:\n  - slush lobby\n"
    );
    assert_eq!(
        doors_message(RoomType::SlushLobby),
        "\nYou see 3 doors labeled:\n  - cryobay\n  - cryocontrol\n  - ventilation shaft\n"
    );
}

#[test]
fn reading_time_is_fifty_msecs_per_character() {
    for room in ALL_ROOMS {
        let (again, first) = room_intro_text(room);
        assert_eq!(reading_time_msecs(room, true), again.chars().count() as u64 * 50);
        assert_eq!(reading_time_msecs(room, false), first.chars().count() as u64 * 50);
        assert!(first != again);
        assert!(!first.is_empty());
    }
    assert_eq!(
        room_intro_text(RoomType::Cryobay).0,
        "You are back in the cryobay. The caskets hum quietly in the dark."
    );
    assert_eq!(reading_time_msecs(RoomType::Cryobay, true), 65 * 50);
}

#[test]
fn rooms_start_as_expected() {
    let rooms = Rooms::new();
    assert!(rooms.is_opened(RoomType::Cryobay));
    assert!(rooms.is_opened(RoomType::SlushLobby));
    assert!(!rooms.is_opened(RoomType::Cryocontrol));
    assert!(!rooms.is_opened(RoomType::Corridor));
    for room in ALL_ROOMS {
        assert!(!rooms.is_visited(room));
    }
    assert_eq!(
        CryobayRoom::new(),
        CryobayRoom { visited: false, lever: false, crowbar: true, casket_locked: true }
    );
    assert_eq!(
        SlushLobbyRoom::new(),
        SlushLobbyRoom { visited: false, door_opened: false, shaft_opened: false }
    );
    assert_eq!(Cryocontrol::new(), Cryocontrol { visited: false, lever: false, opened: false });
    assert_eq!(CorridorRoom::new(), CorridorRoom { visited: false, keycard: true, opened: false });
}

#[test]
fn visit_and_open_are_idempotent() {
    let mut rooms = Rooms::new();
    for room in ALL_ROOMS {
        rooms.visit(room);
        assert!(rooms.is_visited(room));
        let once = rooms;
        rooms.visit(room);
        assert_eq!(rooms, once);
        rooms.open(room);
        assert!(rooms.is_opened(room));
        let once = rooms;
        rooms.open(room);
        assert_eq!(rooms, once);
    }
}

#[test]
fn cryobay_hands_out_the_crowbar_once() {
    let mut room = CryobayRoom::new();
    let mut state = State::new();
    let mut queue = EventQueue::new();
    let r = room.handle_action(&mut state, &mut queue, &Action::PickUpCrowbar);
    assert_eq!(r, ActionHandled::Handled);
    assert_eq!(state.player.items, vec![Item::Crowbar]);
    assert!(!room.crowbar);
    assert_eq!(
        drain_actions(&mut queue),
        vec![message("You pick up the crowbar.", GameEventType::Success)]
    );
    let r = room.handle_action(&mut state, &mut queue, &Action::PickUpCrowbar);
    assert_eq!(r, ActionHandled::Handled);
    assert_eq!(state.player.items, vec![Item::Crowbar]);
    assert_eq!(
        drain_actions(&mut queue),
        vec![message("You already have the crowbar.", GameEventType::Failure)]
    );
}

#[test]
fn cryobay_casket_ends_the_game() {
    let mut room = CryobayRoom::new();
    let mut state = State::new();
    let mut queue = EventQueue::new();
    let r = room.handle_action(&mut state, &mut queue, &Action::UseCasket);
    assert_eq!(r, ActionHandled::Handled);
    let actions = drain_actions(&mut queue);
    assert_eq!(actions.len(), 2);
    assert_eq!(
        actions[0],
        message(
            "\"Reboot initiated.\" Those are the last words you hear as you slip back into cryosleep once again.",
            GameEventType::Success
        )
    );
    assert_eq!(actions[1], Action::GameOver);
}

#[test]
fn rooms_ignore_what_they_do_not_care_about() {
    let mut state = State::new();
    let mut queue = EventQueue::new();
    let mut cryobay = CryobayRoom::new();
    let mut lobby = SlushLobbyRoom::new();
    let mut control = Cryocontrol::new();
    let mut corridor = CorridorRoom::new();
    for action in [
        Action::Attack,
        Action::Dodge,
        Action::Tick(5),
        Action::EnemyAttack,
        Action::Enter(RoomType::Cryobay),
        Action::Command("use casket".to_string()),
        Action::PlayerDied,
        Action::UseDoor,
    ] {
        assert_eq!(cryobay.handle_action(&mut state, &mut queue, &action), ActionHandled::NotHandled);
        assert_eq!(lobby.handle_action(&mut state, &mut queue, &action), ActionHandled::NotHandled);
        assert_eq!(control.handle_action(&mut state, &mut queue, &action), ActionHandled::NotHandled);
        assert_eq!(corridor.handle_action(&mut state, &mut queue, &action), ActionHandled::NotHandled);
    }
    assert!(queue.is_empty());
    assert!(queue.timers.is_empty());
    assert_eq!(cryobay, CryobayRoom::new());
    assert_eq!(lobby, SlushLobbyRoom::new());
    assert_eq!(control, Cryocontrol::new());
    assert_eq!(corridor, CorridorRoom::new());
    assert!(state.player.items.is_empty());
}

#[test]
fn cryocontrol_terminal_is_blocked_by_an_enemy() {
    let mut room = Cryocontrol::new();
    let mut state = State::new();
    initialize_enemies(&mut state);
    state.current_room = RoomType::Cryocontrol;
    let mut queue = EventQueue::new();
    let r = room.handle_action(&mut state, &mut queue, &Action::UseTerminal);
    assert_eq!(r, ActionHandled::Handled);
    assert_eq!(
        drain_actions(&mut queue),
        vec![message(
            "The Roomba is blocking you from getting to the terminal.",
            GameEventType::Failure
        )]
    );
    assert!(queue.timers.is_empty());
}

#[test]
fn cryocontrol_terminal_starts_the_reboot() {
    let mut room = Cryocontrol::new();
    let mut state = State::new();
    state.current_room = RoomType::Cryocontrol;
    let mut queue = EventQueue::new();
    let r = room.handle_action(&mut state, &mut queue, &Action::UseTerminal);
    assert_eq!(r, ActionHandled::Handled);
    let actions = drain_actions(&mut queue);
    assert_eq!(actions.len(), 1);
    match &actions[0] {
        Action::Message(text, kind) => {
            assert!(text.contains("Rebooting System in 20 seconds"));
            assert_eq!(*kind, GameEventType::Success);
        }
        other => panic!("unexpected action {:?}", other),
    }
    assert_eq!(queue.timers.len(), 1);
    let t = &queue.timers[0];
    assert_eq!(t.timer_type, TimerType::Reboot);
    assert_eq!(t.label, "Reboot countdown");
    assert_eq!(t.elapsed, 0);
    assert_eq!(t.duration, 20_000);
    assert_eq!(t.action, Action::Rebooted);
    assert!(t.is_visual);
    queue.tick(20_000);
    assert_eq!(queue.get_next_action(), Some(Action::Rebooted));
}

#[test]
fn cryocontrol_door_opens_once() {
    let mut room = Cryocontrol::new();
    let mut state = State::new();
    let mut queue = EventQueue::new();
    assert!(!room.is_opened());
    assert_eq!(
        room.handle_action(&mut state, &mut queue, &Action::OpenCryoControl),
        ActionHandled::Handled
    );
    assert!(room.is_opened());
    assert_eq!(
        drain_actions(&mut queue),
        vec![message("You open the cryo control door.", GameEventType::Success)]
    );
    assert_eq!(
        room.handle_action(&mut state, &mut queue, &Action::OpenCryoControl),
        ActionHandled::Handled
    );
    assert!(room.is_opened());
    assert_eq!(
        drain_actions(&mut queue),
        vec![message("The cryo control door is already open.", GameEventType::Failure)]
    );
}

#[test]
fn a_claiming_room_shuts_out_the_global_rules() {
    let mut app = App::new(State::new());
    handle_action(&mut app, Action::PickUpCrowbar);
    assert!(app.log.is_empty());
    assert_eq!(
        drain_actions(&mut app.event_queue),
        vec![message("You pick up the crowbar.", GameEventType::Success)]
    );
    assert_eq!(app.state.player.items, vec![Item::Crowbar]);
    assert_eq!(app.rooms.slush_lobby, SlushLobbyRoom::new());
    assert_eq!(app.rooms.cryocontrol, Cryocontrol::new());
    assert_eq!(app.rooms.corridor, CorridorRoom::new());

    handle_action(&mut app, Action::UseCasket);
    assert!(app.log.is_empty());
    assert_eq!(drain_actions(&mut app.event_queue).len(), 2);

    handle_action(&mut app, Action::GameOver);
    assert_eq!(app.log.len(), 1);
    assert_eq!(app.log[0].content, "Unhandled action: GameOver\n");
}

#[test]
fn try_handle_room_action_reports_the_claim() {
    let mut app = App::new(State::new());
    assert_eq!(app.try_handle_room_action(&Action::OpenCorridor), ActionHandled::Handled);
    assert!(app.rooms.corridor.opened);
    assert_eq!(app.try_handle_room_action(&Action::UseTerminal), ActionHandled::Handled);
    assert_eq!(app.event_queue.timers.len(), 1);
    assert_eq!(app.try_handle_room_action(&Action::Attack), ActionHandled::NotHandled);
    assert_eq!(app.try_handle_room_action(&Action::ShowEnterText), ActionHandled::NotHandled);
    assert!(app.log.is_empty());
}

#[test]
fn enter_closed_room_yields_closed_message() {
    let mut app = App::new(State::new());
    handle_action(&mut app, Action::Enter(RoomType::Cryocontrol));
    assert_eq!(app.state.current_room, RoomType::Cryobay);
    assert!(app.log.is_empty());
    assert_eq!(
        drain_actions(&mut app.event_queue),
        vec![message(
            "The door to cryocontrol is closed and won't open.",
            GameEventType::Failure
        )]
    );
    assert!(!app.rooms.is_visited(RoomType::Cryocontrol));
}

#[test]
fn enter_open_room_runs_the_transition() {
    let mut app = App::new(State::new());
    handle_action(&mut app, Action::Enter(RoomType::SlushLobby));
    assert_eq!(app.state.current_room, RoomType::SlushLobby);
    assert!(app.rooms.is_visited(RoomType::SlushLobby));
    assert_eq!(app.log.len(), 1);
    assert_eq!(
        app.log[0].content,
        "\nYou see 3 doors labeled:\n  - cryobay\n  - cryocontrol\n  - ventilation shaft\n"
    );
    assert_eq!(app.log[0].game_event_type, GameEventType::Normal);
    assert_eq!(
        drain_actions(&mut app.event_queue),
        vec![
            Action::Audio(AudioEvent::Effect(Effect::Door)),
            Action::Audio(AudioEvent::Track(Track::Loop)),
            message(room_intro_text(RoomType::SlushLobby).1, GameEventType::Normal),
        ]
    );
    assert!(app.event_queue.timers.is_empty());

    handle_action(&mut app, Action::Enter(RoomType::SlushLobby));
    assert_eq!(
        drain_actions(&mut app.event_queue),
        vec![
            Action::Audio(AudioEvent::Effect(Effect::Door)),
            Action::Audio(AudioEvent::Track(Track::Loop)),
            message(room_intro_text(RoomType::SlushLobby).0, GameEventType::Normal),
        ]
    );
}

#[test]
fn entering_the_corridor_makes_no_door_sound_and_starts_the_rats_timers() {
    let mut state = State::new();
    initialize_enemies(&mut state);
    let mut app = App::new(state);
    app.rooms.open(RoomType::Corridor);
    handle_action(&mut app, Action::Enter(RoomType::Corridor));
    assert_eq!(
        drain_actions(&mut app.event_queue),
        vec![
            Action::Audio(AudioEvent::Track(Track::Loop)),
            message(room_intro_text(RoomType::Corridor).1, GameEventType::Normal),
        ]
    );
    let timers = app.event_queue.get_timers(TimerType::EnemyAttack);
    assert_eq!(timers.len(), 2);
    let expected = 8000 + reading_time_msecs(RoomType::Corridor, false);
    assert_eq!(timers[0].duration, expected);
    assert_eq!(timers[1].duration, expected);
    assert_eq!(timers[0].elapsed, 0);
    assert_eq!(timers[0].action, Action::EnemyAttack);
}

#[test]
fn enter_room_points_out_the_terminal_in_a_cleared_cryocontrol() {
    let mut app = App::new(State::new());
    app.rooms.visit(RoomType::Cryocontrol);
    enter_room(&mut app, RoomType::Cryocontrol);
    assert_eq!(
        drain_actions(&mut app.event_queue),
        vec![
            Action::Audio(AudioEvent::Track(Track::Complications)),
            message(
                "The central cortex rumbles uneasily. There's a terminal in front of it.",
                GameEventType::Normal
            ),
            message(room_intro_text(RoomType::Cryocontrol).0, GameEventType::Normal),
        ]
    );
    assert_eq!(app.log[0].content, "\nYou see 1 door labeled:\n  - slush lobby\n");
}

#[test]
fn initialize_enemies_places_rat_and_roomba() {
    let mut state = State::new();
    assert!(state.get_current_enemy(RoomType::Corridor).is_none());
    initialize_enemies(&mut state);
    let rat = state.get_current_enemy(RoomType::Corridor).unwrap();
    assert_eq!(rat.get_enemy_type(), EnemyType::Rat);
    assert_eq!(rat.get_health(), 10);
    assert_eq!(rat.get_attack_strength(), 5);
    assert_eq!(rat.get_attack_timers(0)[0].duration, 8000);
    let roomba = state.get_current_enemy(RoomType::Cryocontrol).unwrap();
    assert_eq!(roomba.get_enemy_type(), EnemyType::Roomba);
    assert_eq!(roomba.get_health(), 40);
    assert_eq!(roomba.get_attack_strength(), 20);
    assert_eq!(roomba.get_initial_attack_timers()[1].duration, 5000);
    assert!(state.get_current_enemy(RoomType::Cryobay).is_none());
    assert!(state.get_current_enemy(RoomType::SlushLobby).is_none());
    assert_eq!(state.current_room, RoomType::Cryobay);
    assert_eq!(state.player.health, 100);
}

#[test]
fn enemies_map_insert_get_remove() {
    let mut state = State::new();
    let old = state.enemies.insert(
        RoomType::SlushLobby,
        GenericEnemy::new(EnemyType::Rat, 1, 2, 3, vec![], vec![]),
    );
    assert!(old.is_none());
    assert!(state.enemies.contains_key(RoomType::SlushLobby));
    assert!(!state.enemies.contains_key(RoomType::Cryobay));
    let old = state.enemies.insert(
        RoomType::SlushLobby,
        GenericEnemy::new(EnemyType::Roomba, 4, 5, 6, vec![], vec![]),
    );
    assert_eq!(old.unwrap().get_health(), 1);
    let dead = state.get_current_enemy_mut(RoomType::SlushLobby).unwrap().reduce_health(4);
    assert!(dead);
    assert_eq!(state.enemies.get(RoomType::SlushLobby).unwrap().get_health(), 0);
    assert!(state.get_current_enemy_mut(RoomType::Corridor).is_none());
    let gone = state.enemies.remove(RoomType::SlushLobby).unwrap();
    assert_eq!(gone.get_enemy_type(), EnemyType::Roomba);
    assert!(state.enemies.remove(RoomType::SlushLobby).is_none());
    assert!(!state.enemies.contains_key(RoomType::SlushLobby));
}

#[test]
fn slush_lobby_shaft_needs_the_crowbar() {
    let mut room = SlushLobbyRoom::new();
    let mut state = State::new();
    let mut queue = EventQueue::new();
    state.player.items.push(Item::KeyCard);
    let r = room.handle_action(&mut state, &mut queue, &Action::UseCrowbar);
    assert_eq!(r, ActionHandled::Handled);
    assert!(!room.shaft_opened);
    assert_eq!(
        drain_actions(&mut queue),
        vec![message(
            "You have nothing to force the ventilation shaft open with.",
            GameEventType::Failure
        )]
    );
    state.player.items.push(Item::Crowbar);
    let r = room.handle_action(&mut state, &mut queue, &Action::UseCrowbar);
    assert_eq!(r, ActionHandled::Handled);
    assert!(room.shaft_opened);
    assert!(!room.door_opened);
    assert_eq!(
        drain_actions(&mut queue),
        vec![message(
            "You smash open the ventilation shaft cover with your crowbar.",
            GameEventType::Success
        )]
    );
    let r = room.handle_action(&mut state, &mut queue, &Action::UseCrowbar);
    assert_eq!(r, ActionHandled::Handled);
    assert!(room.shaft_opened);
    assert_eq!(
        drain_actions(&mut queue),
        vec![message("The ventilation shaft is already open.", GameEventType::Failure)]
    );
    assert_eq!(state.player.items, vec![Item::KeyCard, Item::Crowbar]);
}

#[test]
fn slush_lobby_door_needs_the_keycard() {
    let mut room = SlushLobbyRoom::new();
    let mut state = State::new();
    let mut queue = EventQueue::new();
    state.player.items.push(Item::Crowbar);
    let r = room.handle_action(&mut state, &mut queue, &Action::UseKeycard);
    assert_eq!(r, ActionHandled::Handled);
    assert!(!room.door_opened);
    assert_eq!(
        drain_actions(&mut queue),
        vec![message(
            "You have no keycard to open the cryo control door with.",
            GameEventType::Failure
        )]
    );
    state.player.items.push(Item::KeyCard);
    let r = room.handle_action(&mut state, &mut queue, &Action::UseKeycard);
    assert_eq!(r, ActionHandled::Handled);
    assert!(room.door_opened);
    assert!(!room.shaft_opened);
    assert_eq!(
        drain_actions(&mut queue),
        vec![message("You open the cryo control door. SSswsschh", GameEventType::Success)]
    );
    let r = room.handle_action(&mut state, &mut queue, &Action::UseKeycard);
    assert_eq!(r, ActionHandled::Handled);
    assert!(room.door_opened);
    assert_eq!(
        drain_actions(&mut queue),
        vec![message("The cryo control door is already open.", GameEventType::Failure)]
    );
}

#[test]
fn slush_lobby_door_opens_with_the_shaft_open_too() {
    let mut room = SlushLobbyRoom::new();
    let mut state = State::new();
    let mut queue = EventQueue::new();
    state.player.items.push(Item::KeyCard);
    room.shaft_opened = true;
    let r = room.handle_action(&mut state, &mut queue, &Action::UseKeycard);
    assert_eq!(r, ActionHandled::Handled);
    assert!(room.door_opened);
    assert_eq!(
        drain_actions(&mut queue),
        vec![message("You open the cryo control door. SSswsschh", GameEventType::Success)]
    );
}

#[test]
fn corridor_opens_once() {
    let mut room = CorridorRoom::new();
    let mut state = State::new();
    let mut queue = EventQueue::new();
    assert!(!room.is_opened());
    assert_eq!(
        room.handle_action(&mut state, &mut queue, &Action::OpenCorridor),
        ActionHandled::Handled
    );
    assert!(room.is_opened());
    assert_eq!(
        drain_actions(&mut queue),
        vec![message(
            "You smash open the ventilation shaft cover with your crowbar.",
            GameEventType::Success
        )]
    );
    assert_eq!(
        room.handle_action(&mut state, &mut queue, &Action::OpenCorridor),
        ActionHandled::Handled
    );
    assert!(room.is_opened());
    assert_eq!(
        drain_actions(&mut queue),
        vec![message("The ventilation shaft is already open.", GameEventType::Failure)]
    );
}

#[test]
fn corridor_hands_out_the_keycard_once() {
    let mut room = CorridorRoom::new();
    let mut state = State::new();
    let mut queue = EventQueue::new();
    assert_eq!(
        room.handle_action(&mut state, &mut queue, &Action::PickUpKeycard),
        ActionHandled::Handled
    );
    assert_eq!(state.player.items, vec![Item::KeyCard]);
    assert!(!room.keycard);
    assert_eq!(
        drain_actions(&mut queue),
        vec![message("You pick up the keycard.", GameEventType::Success)]
    );
    for _ in 0..3 {
        assert_eq!(
            room.handle_action(&mut state, &mut queue, &Action::PickUpKeycard),
            ActionHandled::Handled
        );
        assert_eq!(state.player.items, vec![Item::KeyCard]);
        assert!(!room.keycard);
        assert_eq!(
            drain_actions(&mut queue),
            vec![message("You already have the keycard.", GameEventType::Failure)]
        );
    }
    assert_eq!(room, CorridorRoom { visited: false, keycard: false, opened: false });
}

#[test]
fn a_room_that_declines_changes_nothing() {
    let mut state = State::new();
    initialize_enemies(&mut state);
    state.enemies.remove(RoomType::Corridor);
    state.current_room = RoomType::Corridor;
    let mut queue = EventQueue::new();
    queue.schedule_action(Action::Dodge);
    queue.schedule_timers(
        state.get_current_enemy(RoomType::Cryocontrol).unwrap().get_attack_timers(0),
    );
    let mut cryobay = CryobayRoom::new();
    let mut lobby = SlushLobbyRoom::new();
    let mut control = Cryocontrol::new();
    let mut corridor = CorridorRoom::new();
    for action in [Action::ShowEnterText, Action::Tick(5), Action::PlayerFinishedReading] {
        assert_eq!(cryobay.handle_action(&mut state, &mut queue, &action), ActionHandled::NotHandled);
        assert_eq!(lobby.handle_action(&mut state, &mut queue, &action), ActionHandled::NotHandled);
        assert_eq!(control.handle_action(&mut state, &mut queue, &action), ActionHandled::NotHandled);
        assert_eq!(corridor.handle_action(&mut state, &mut queue, &action), ActionHandled::NotHandled);
        assert_eq!(queue.actions.len(), 1);
        assert_eq!(queue.actions[0], Action::Dodge);
        assert_eq!(queue.timers.len(), 2);
        assert_eq!(queue.timers[0].elapsed, 0);
    }
    assert_eq!(cryobay, CryobayRoom::new());
    assert_eq!(lobby, SlushLobbyRoom::new());
    assert_eq!(control, Cryocontrol::new());
    assert_eq!(corridor, CorridorRoom::new());
    assert_eq!(state.current_room, RoomType::Corridor);
    assert_eq!(state.player.health, 100);
    assert!(state.player.items.is_empty());
    assert!(state.enemies.contains_key(RoomType::Cryocontrol));
    assert!(!state.enemies.contains_key(RoomType::Corridor));
}

#[test]
fn show_enter_text_reads_out_the_current_room() {
    let mut app = App::new(State::new());
    handle_action(&mut app, Action::ShowEnterText);
    assert_eq!(
        drain_actions(&mut app.event_queue),
        vec![message(room_intro_text(RoomType::Cryobay).0, GameEventType::Normal)]
    );
    assert!(app.log.is_empty());
}

#[test]
fn looking_around_the_corridor_shows_the_keycard_while_it_lies_there() {
    let hint = "You see the rat's keycard lying around in the corner.";
    let intro = room_intro_text(RoomType::Corridor).0;
    let mut state = State::new();
    initialize_enemies(&mut state);
    state.current_room = RoomType::Corridor;
    let mut app = App::new(state);

    handle_action(&mut app, Action::ShowEnterText);
    assert_eq!(
        drain_actions(&mut app.event_queue),
        vec![message(intro, GameEventType::Normal)]
    );

    app.state.enemies.remove(RoomType::Corridor);
    handle_action(&mut app, Action::ShowEnterText);
    assert_eq!(
        drain_actions(&mut app.event_queue),
        vec![message(hint, GameEventType::Normal), message(intro, GameEventType::Normal)]
    );

    handle_action(&mut app, Action::PickUpKeycard);
    assert_eq!(app.state.player.items, vec![Item::KeyCard]);
    drain_actions(&mut app.event_queue);
    handle_action(&mut app, Action::ShowEnterText);
    assert_eq!(
        drain_actions(&mut app.event_queue),
        vec![message(intro, GameEventType::Normal)]
    );
}

#[test]
fn looking_around_elsewhere_does_not_show_the_keycard() {
    let mut app = App::new(State::new());
    app.state.current_room = RoomType::SlushLobby;
    handle_action(&mut app, Action::ShowEnterText);
    assert_eq!(
        drain_actions(&mut app.event_queue),
        vec![message(room_intro_text(RoomType::SlushLobby).0, GameEventType::Normal)]
    );
}
