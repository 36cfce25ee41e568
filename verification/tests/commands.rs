use cryo_quest::action::Action;
use cryo_quest::commands::try_handle_command;
use cryo_quest::game_event::GameEventType;
use cryo_quest::room::RoomType;
use cryo_quest::state::State;

const HELP: &str = "Use one of the following commands: enter, attack, dodge, pickup, use.";

fn parse(text: &str) -> Vec<Action> {
    try_handle_command(text.to_string(), &State::new())
}

fn parse_in(text: &str, room: RoomType) -> Vec<Action> {
    let mut state = State::new();
    state.current_room = room;
    try_handle_command(text.to_string(), &state)
}

fn failure(text: &str) -> Vec<Action> {
    vec![Action::Message(text.to_string(), GameEventType::Failure)]
}

#[test]
fn enter_adjacent_room_leaves_and_enters() {
    assert_eq!(
        parse("enter slush lobby"),
        vec![Action::Leave(RoomType::Cryobay), Action::Enter(RoomType::SlushLobby)]
    );
    assert_eq!(
        parse_in("enter ventilation shaft", RoomType::SlushLobby),
        vec![Action::Leave(RoomType::SlushLobby), Action::Enter(RoomType::Corridor)]
    );
    assert_eq!(
        parse_in("enter cryobay", RoomType::SlushLobby),
        vec![Action::Leave(RoomType::SlushLobby), Action::Enter(RoomType::Cryobay)]
    );
}

#[test]
fn enter_room_that_is_not_adjacent_is_rejected() {
    assert_eq!(parse("enter cryocontrol"), failure("You can't go to cryocontrol from here."));
    assert_eq!(parse("enter cryobay"), failure("You can't go to cryobay from here."));
    assert_eq!(
        parse_in("enter ventilation shaft", RoomType::Cryocontrol),
        failure("You can't go to ventilation shaft from here.")
    );
}

#[test]
fn enter_unknown_room_is_rejected_by_name() {
    assert_eq!(
        parse("enter nonexistent room"),
        failure("There is no room named \"nonexistent room\".")
    );
    assert_eq!(parse("enter  cryobay"), failure("There is no room named \" cryobay\"."));
    assert_eq!(parse("enter Cryobay"), failure("There is no room named \"Cryobay\"."));
}

#[test]
fn enter_without_room_asks_for_one() {
    assert_eq!(parse("enter"), failure("Specify a room to enter!"));
    assert_eq!(parse("enter "), failure("Specify a room to enter!"));
}

#[test]
fn simple_verbs() {
    assert_eq!(parse("look"), vec![Action::ShowEnterText]);
    assert_eq!(parse("look around"), vec![Action::ShowEnterText]);
    assert_eq!(parse("attack"), vec![Action::Attack]);
    assert_eq!(parse("attack rat"), vec![Action::Attack]);
    assert_eq!(parse("dodge"), vec![Action::Dodge]);
}

#[test]
fn pickup_items() {
    assert_eq!(parse("pickup crowbar"), vec![Action::PickUpCrowbar]);
    assert_eq!(parse("pickup keycard"), vec![Action::PickUpKeycard]);
    assert_eq!(parse("pickup casket"), failure("No such item."));
    assert_eq!(parse("pickup"), failure("No such item."));
    assert_eq!(parse("pickup crowbar "), failure("No such item."));
}

#[test]
fn use_items() {
    assert_eq!(parse("use crowbar"), vec![Action::UseCrowbar]);
    assert_eq!(parse("use terminal"), vec![Action::UseTerminal]);
    assert_eq!(parse("use keycard"), vec![Action::UseKeycard]);
    assert_eq!(parse("use casket"), vec![Action::UseCasket]);
    assert_eq!(parse("use door"), vec![Action::UseDoor]);
    assert_eq!(parse("use lever"), failure("No such item."));
    assert_eq!(parse("use"), failure("No such item."));
}

#[test]
fn unknown_input_yields_help() {
    assert_eq!(parse(""), failure(HELP));
    assert_eq!(parse(" "), failure(HELP));
    assert_eq!(parse("dance"), failure(HELP));
    assert_eq!(parse("Enter cryobay"), failure(HELP));
    assert_eq!(parse(" attack"), failure(HELP));
    assert_eq!(parse("attacks"), failure(HELP));
    assert_eq!(parse("h\u{e4}lp me"), failure(HELP));
}

#[test]
fn names_with_characters_beyond_ascii_are_echoed_whole() {
    assert_eq!(
        parse("enter k\u{fc}che \u{2603}"),
        failure("There is no room named \"k\u{fc}che \u{2603}\".")
    );
}
