use cryo_quest::action::Action;
use cryo_quest::dispatch::App;
use cryo_quest::drain::drain;
use cryo_quest::entities::enemy::initialize_enemies;
use cryo_quest::game_event::GameEventType;
use cryo_quest::input::{
    duration_to_msec_u64, erase_char, handle_clock, handle_key, send_line, type_char, Key,
    KeyOutcome,
};
use cryo_quest::room::RoomType;
use cryo_quest::sound::{AudioEvent, Effect, Track};
use cryo_quest::state::State;
use cryo_quest::timer::{Timer, TimerType};

fn type_text(app: &mut App, text: &str) {
    for c in text.chars() {
        assert_eq!(handle_key(app, Key::Char(c)), KeyOutcome::Sound(Effect::Typing));
    }
}

#[test]
fn typing_builds_the_line() {
    let mut app = App::new(State::new());
    assert_eq!(app.input, "");
    type_text(&mut app, "look");
    assert_eq!(app.input, "look");
    type_char(&mut app, '\u{e4}');
    assert_eq!(app.input, "look\u{e4}");
    assert!(app.log.is_empty());
}

#[test]
fn first_character_tells_that_reading_is_over() {
    let mut app = App::new(State::new());
    type_text(&mut app, "at");
    assert_eq!(app.event_queue.actions.len(), 1);
    assert_eq!(app.event_queue.actions[0], Action::PlayerFinishedReading);
    type_text(&mut app, "tack");
    assert_eq!(app.event_queue.actions.len(), 1);
}

#[test]
fn backspace_takes_the_last_character() {
    let mut app = App::new(State::new());
    assert_eq!(handle_key(&mut app, Key::Backspace), KeyOutcome::Sound(Effect::Backspace));
    assert_eq!(app.input, "");
    type_text(&mut app, "ab\u{2603}");
    assert_eq!(handle_key(&mut app, Key::Backspace), KeyOutcome::Sound(Effect::Backspace));
    assert_eq!(app.input, "ab");
    erase_char(&mut app);
    assert_eq!(app.input, "a");
    erase_char(&mut app);
    erase_char(&mut app);
    assert_eq!(app.input, "");
}

#[test]
fn enter_sends_the_line_as_a_command() {
    let mut app = App::new(State::new());
    type_text(&mut app, "enter slush lobby");
    app.event_queue.get_next_action();
    assert_eq!(handle_key(&mut app, Key::Char('\n')), KeyOutcome::Silent);
    assert_eq!(app.input, "");
    assert_eq!(app.log.len(), 1);
    assert_eq!(app.log[0].content, "\n>>> enter slush lobby\n\n");
    assert_eq!(app.log[0].game_event_type, GameEventType::Normal);
    assert_eq!(app.event_queue.actions.len(), 1);
    assert_eq!(app.event_queue.actions[0], Action::Command("enter slush lobby".to_string()));
}

#[test]
fn enter_on_an_empty_line_does_nothing() {
    let mut app = App::new(State::new());
    assert_eq!(handle_key(&mut app, Key::Char('\n')), KeyOutcome::Silent);
    send_line(&mut app);
    assert!(app.log.is_empty());
    assert!(app.event_queue.is_empty());
    assert_eq!(app.input, "");
}

#[test]
fn escape_quits_and_other_keys_do_nothing() {
    let mut app = App::new(State::new());
    type_text(&mut app, "x");
    assert_eq!(handle_key(&mut app, Key::Esc), KeyOutcome::Quit);
    assert_eq!(handle_key(&mut app, Key::Other), KeyOutcome::Silent);
    assert_eq!(app.input, "x");
    assert_eq!(app.event_queue.actions.len(), 1);
    assert!(app.log.is_empty());
}

#[test]
fn clock_schedules_a_tick() {
    let mut app = App::new(State::new());
    handle_clock(&mut app, 16);
    assert_eq!(app.event_queue.actions.len(), 1);
    assert_eq!(app.event_queue.actions[0], Action::Tick(16));
}

#[test]
fn durations_in_milliseconds() {
    assert_eq!(duration_to_msec_u64(0, 0), 0);
    assert_eq!(duration_to_msec_u64(0, 999_999), 0);
    assert_eq!(duration_to_msec_u64(0, 1_000_000), 1);
    assert_eq!(duration_to_msec_u64(2, 345_678_901), 2345);
    assert_eq!(duration_to_msec_u64(u64::MAX / 1000, 0), u64::MAX / 1000 * 1000);
    assert_eq!(duration_to_msec_u64(u64::MAX / 1000 + 1, 0), u64::MAX);
    assert_eq!(duration_to_msec_u64(u64::MAX, 999_999_999), u64::MAX);
}

#[test]
fn a_typed_command_runs_through_the_drain() {
    let mut state = State::new();
    initialize_enemies(&mut state);
    let mut app = App::new(state);
    type_text(&mut app, "enter slush lobby");
    handle_key(&mut app, Key::Char('\n'));
    let audio = drain(&mut app);
    assert_eq!(audio, vec![AudioEvent::Effect(Effect::Door), AudioEvent::Track(Track::Loop)]);
    assert!(app.event_queue.is_empty());
    assert_eq!(app.state.current_room, RoomType::SlushLobby);
    assert_eq!(app.log.len(), 3);
    assert_eq!(app.log[2].content, "\n>>> enter slush lobby\n\n");
}

#[test]
fn drain_empties_the_queue_and_keeps_the_order_of_audio() {
    let mut app = App::new(State::new());
    assert!(drain(&mut app).is_empty());
    app.event_queue.schedule_action(Action::Audio(AudioEvent::Effect(Effect::Typing)));
    app.event_queue.schedule_action(Action::Command("enter slush lobby".to_string()));
    app.event_queue.schedule_action(Action::Audio(AudioEvent::Effect(Effect::BeepLong)));
    let audio = drain(&mut app);
    assert_eq!(
        audio,
        vec![
            AudioEvent::Effect(Effect::Typing),
            AudioEvent::Effect(Effect::BeepLong),
            AudioEvent::Effect(Effect::Door),
            AudioEvent::Track(Track::Loop),
        ]
    );
    assert!(app.event_queue.is_empty());
}

#[test]
fn drain_ends_even_when_timers_carry_ticks_and_commands() {
    let mut app = App::new(State::new());
    app.event_queue.schedule_timer(Timer::new(
        TimerType::Storytime,
        "tick",
        0,
        0,
        Action::Tick(5),
        false,
    ));
    app.event_queue.schedule_timer(Timer::new(
        TimerType::Storytime,
        "command",
        0,
        5,
        Action::Command("attack".to_string()),
        false,
    ));
    app.event_queue.schedule_action(Action::Tick(0));
    drain(&mut app);
    assert!(app.event_queue.is_empty());
    assert!(app.event_queue.timers.is_empty());
    assert_eq!(app.log.len(), 1);
    assert_eq!(app.log[0].content, "There is nothing you can attack.\n");
}
