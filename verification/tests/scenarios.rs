use cryo_quest::action::Action;
use cryo_quest::dispatch::App;
use cryo_quest::drain::{step, step_with, StepOutcome};
use cryo_quest::entities::enemy::{Enemy, initialize_enemies, EnemyType, GenericEnemy};
use cryo_quest::game_event::GameEventType;
use cryo_quest::global_handlers::handle_action;
use cryo_quest::room::{room_intro_text, RoomType};
use cryo_quest::sound::{AudioEvent, Effect, Track};
use cryo_quest::state::State;
use cryo_quest::timer::TimerType;

fn drain(app: &mut App) -> Vec<AudioEvent> {
    let mut audio = vec![];
    loop {
        match step(app) {
            StepOutcome::Idle => return audio,
            StepOutcome::Audio(event) => audio.push(event),
            StepOutcome::Dispatched => {}
        }
    }
}

fn contents(app: &App) -> Vec<String> {
    app.log.iter().map(|e| e.content.clone()).collect()
}

#[test]
fn scenario_enter_adjacent_open_room() {
    let mut app = App::new(State::new());
    handle_action(&mut app, Action::Command("enter slush lobby".to_string()));
    assert_eq!(app.event_queue.actions.len(), 2);
    assert_eq!(app.event_queue.actions[0], Action::Leave(RoomType::Cryobay));
    assert_eq!(app.event_queue.actions[1], Action::Enter(RoomType::SlushLobby));
    assert_eq!(app.state.current_room, RoomType::Cryobay);
    let audio = drain(&mut app);
    assert_eq!(
        audio,
        vec![AudioEvent::Effect(Effect::Door), AudioEvent::Track(Track::Loop)]
    );
    assert_eq!(app.state.current_room, RoomType::SlushLobby);
    let log = contents(&app);
    assert_eq!(log.len(), 2);
    assert_eq!(log[0], format!("{}\n", room_intro_text(RoomType::SlushLobby).1));
    assert_eq!(
        log[1],
        "\nYou see 3 doors labeled:\n  - cryobay\n  - cryocontrol\n  - ventilation shaft\n"
    );
    assert_eq!(app.log[0].game_event_type, GameEventType::Normal);
    assert!(app.event_queue.is_empty());
}

#[test]
fn scenario_enter_nonexistent_room() {
    let mut state = State::new();
    initialize_enemies(&mut state);
    let mut app = App::new(state);
    let rooms_before = app.rooms;
    app.event_queue.schedule_action(Action::Command("enter nonexistent room".to_string()));
    let audio = drain(&mut app);
    assert!(audio.is_empty());
    assert_eq!(app.log.len(), 1);
    assert_eq!(app.log[0].content, "There is no room named \"nonexistent room\".\n");
    assert_eq!(app.log[0].game_event_type, GameEventType::Failure);
    assert_eq!(app.state.current_room, RoomType::Cryobay);
    assert_eq!(app.state.player.health, 100);
    assert_eq!(app.state.player.attack_strength, 5);
    assert!(app.state.player.items.is_empty());
    assert_eq!(app.rooms, rooms_before);
    assert!(app.event_queue.timers.is_empty());
    assert!(app.state.enemies.contains_key(RoomType::Corridor));
    assert!(app.state.enemies.contains_key(RoomType::Cryocontrol));
}

#[test]
fn scenario_enter_room_that_is_not_adjacent() {
    let mut app = App::new(State::new());
    app.event_queue.schedule_action(Action::Command("enter cryocontrol".to_string()));
    drain(&mut app);
    assert_eq!(app.log.len(), 1);
    assert_eq!(app.log[0].content, "You can't go to cryocontrol from here.\n");
    assert_eq!(app.log[0].game_event_type, GameEventType::Failure);
    assert_eq!(app.state.current_room, RoomType::Cryobay);
}

#[test]
fn scenario_enemy_attack_kills_player() {
    let mut state = State::new();
    state.player.health = 5;
    state.enemies.insert(
        RoomType::Cryobay,
        GenericEnemy::new(EnemyType::Rat, 10, 10, 8000, vec![], vec![]),
    );
    let mut app = App::new(state);
    handle_action(&mut app, Action::EnemyAttack);
    assert_eq!(app.state.player.health, -5);
    assert_eq!(app.event_queue.actions.len(), 1);
    assert_eq!(app.event_queue.actions[0], Action::PlayerDied);
    assert_eq!(app.log.len(), 1);

    let next = app.event_queue.get_next_action().unwrap();
    handle_action(&mut app, next);
    assert_eq!(app.event_queue.actions.len(), 1);
    assert_eq!(
        app.event_queue.actions[0],
        Action::Message("You died.".to_string(), GameEventType::Failure)
    );
    drain(&mut app);
    let failures: Vec<_> = app
        .log
        .iter()
        .filter(|e| e.game_event_type == GameEventType::Failure)
        .collect();
    assert_eq!(failures.len(), 1);
    assert_eq!(failures[0].content, "You died.\n");
    assert_eq!(app.log.len(), 2);
}

#[test]
fn scenario_attack_slays_enemy() {
    let mut state = State::new();
    state.player.attack_strength = 5;
    state.enemies.insert(
        RoomType::Cryobay,
        GenericEnemy::new(
            EnemyType::Rat,
            5,
            1,
            8000,
            vec!["You stomp on the rat.".to_string()],
            vec![],
        ),
    );
    let mut app = App::new(state);
    app.event_queue.schedule_timers(
        app.state.get_current_enemy(RoomType::Cryobay).unwrap().get_attack_timers(0),
    );
    handle_action(&mut app, Action::Attack);
    assert!(app.state.get_current_enemy(RoomType::Cryobay).is_none());
    assert!(!app.state.enemies.contains_key(RoomType::Cryobay));
    assert_eq!(app.log.len(), 1);
    assert_eq!(app.log[0].content, "You have slain the Rat.\n");
    assert_eq!(app.event_queue.actions.len(), 1);
    assert_eq!(
        app.event_queue.actions[0],
        Action::Audio(AudioEvent::Effect(Effect::PlayerAttack))
    );
    assert_eq!(app.event_queue.get_timers(TimerType::EnemyAttack).len(), 0);
    assert_eq!(drain(&mut app), vec![AudioEvent::Effect(Effect::PlayerAttack)]);

    handle_action(&mut app, Action::Attack);
    assert_eq!(app.event_queue.actions.len(), 1);
    assert_eq!(
        app.event_queue.actions[0],
        Action::Message("There is nothing you can attack.".to_string(), GameEventType::Failure)
    );
    drain(&mut app);
    assert_eq!(app.log.len(), 2);
    assert_eq!(app.log[0].content, "There is nothing you can attack.\n");
    assert_eq!(app.log[0].game_event_type, GameEventType::Failure);
}

#[test]
fn step_on_empty_queue_is_idle() {
    let mut app = App::new(State::new());
    assert_eq!(step(&mut app), StepOutcome::Idle);
    assert_eq!(step_with(&mut app, None), StepOutcome::Idle);
    assert!(app.log.is_empty());
}

#[test]
fn step_hands_out_audio_events() {
    let mut app = App::new(State::new());
    app.event_queue.schedule_action(Action::Audio(AudioEvent::Effect(Effect::Typing)));
    app.event_queue.schedule_action(Action::Attack);
    assert_eq!(step(&mut app), StepOutcome::Audio(AudioEvent::Effect(Effect::Typing)));
    assert!(app.log.is_empty());
    assert_eq!(app.event_queue.actions.len(), 1);
    assert_eq!(step(&mut app), StepOutcome::Dispatched);
    assert_eq!(step(&mut app), StepOutcome::Dispatched);
    assert_eq!(step(&mut app), StepOutcome::Idle);
    assert_eq!(app.log.len(), 1);
    assert_eq!(app.log[0].content, "There is nothing you can attack.\n");
}

#[test]
fn drain_is_breadth_first() {
    let mut app = App::new(State::new());
    app.event_queue.schedule_action(Action::Command("attack".to_string()));
    app.event_queue.schedule_action(Action::Message("later".to_string(), GameEventType::Normal));
    assert_eq!(step(&mut app), StepOutcome::Dispatched);
    assert_eq!(
        app.event_queue.actions.iter().cloned().collect::<Vec<_>>(),
        vec![
            Action::Message("later".to_string(), GameEventType::Normal),
            Action::Attack,
        ]
    );
    drain(&mut app);
    assert_eq!(
        contents(&app),
        vec!["There is nothing you can attack.\n".to_string(), "later\n".to_string()]
    );
}

#[test]
fn a_fight_from_entering_to_the_kill() {
    let mut state = State::new();
    initialize_enemies(&mut state);
    state.current_room = RoomType::SlushLobby;
    let mut app = App::new(state);
    app.rooms.open(RoomType::Corridor);
    app.event_queue.schedule_action(Action::Command("enter ventilation shaft".to_string()));
    drain(&mut app);
    assert_eq!(app.state.current_room, RoomType::Corridor);
    assert_eq!(app.event_queue.get_timers(TimerType::EnemyAttack).len(), 2);

    app.event_queue.schedule_action(Action::Tick(1_000_000));
    let audio = drain(&mut app);
    assert_eq!(audio, vec![AudioEvent::Effect(Effect::EnemyAttack)]);
    assert_eq!(app.state.player.health, 95);
    assert_eq!(app.event_queue.get_timers(TimerType::EnemyAttack).len(), 2);

    app.event_queue.schedule_action(Action::Command("attack".to_string()));
    drain(&mut app);
    assert_eq!(app.state.get_current_enemy(RoomType::Corridor).unwrap().get_health(), 5);
    app.event_queue.schedule_action(Action::Command("attack".to_string()));
    let audio = drain(&mut app);
    assert_eq!(audio, vec![AudioEvent::Effect(Effect::PlayerAttack)]);
    assert!(app.state.get_current_enemy(RoomType::Corridor).is_none());
    assert!(app.event_queue.timers.is_empty());

    app.event_queue.schedule_action(Action::Tick(1_000_000));
    drain(&mut app);
    assert_eq!(app.state.player.health, 95);
}
