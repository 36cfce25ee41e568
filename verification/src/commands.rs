//! The command line: what the player types, and the actions it stands for.
//!
//! A command is a verb, optionally followed by one space and an object.
//! The verb runs up to the first space or to the end of the line; the
//! object is all that follows that space, further spaces included, so that
//! rooms with a space in their name can be named. An object that is empty
//! counts as missing. Verbs, rooms and items are matched exactly.

use vstd::prelude::*;
use vstd::string::*;
use crate::action::{Action, ActionView, actions_view};
use crate::game_event::GameEventType;
use crate::room::{RoomType, is_adjacent, room_from_name, room_type_from_name, rooms_adjacent};
use crate::state::State;
use crate::text::str_eq;

verus! {

/// The position of the first space of a line, or the line's length if it
/// has none.
pub open spec fn first_space(text: Seq<char>) -> nat
    decreases text.len(),
{
    if text.len() == 0 || text[0] == ' ' {
        0
    } else {
        1 + first_space(text.drop_first())
    }
}

/// The verb of a command: what stands before the first space.
pub open spec fn verb_of(text: Seq<char>) -> Seq<char> {
    text.take(first_space(text) as int)
}

/// The object of a command: what stands behind the first space, if
/// anything does.
pub open spec fn object_of(text: Seq<char>) -> Option<Seq<char>> {
    if first_space(text) + 1 < text.len() {
        Some(text.skip(first_space(text) as int + 1))
    } else {
        None
    }
}

/// The answer to a line that is no command.
pub open spec fn help_text() -> Seq<char> {
    "Use one of the following commands: enter, attack, dodge, pickup, use."@
}

/// A message that tells the player that something did not work.
pub open spec fn failure(text: Seq<char>) -> Seq<ActionView> {
    seq![ActionView::Message(text, GameEventType::Failure)]
}

/// The actions that `enter` with the given object stands for, for a
/// player in `current_room`: leaving and entering if the room exists and
/// a door leads there, and otherwise a message that says what is wrong.
pub open spec fn enter_actions(object: Option<Seq<char>>, current_room: RoomType) -> Seq<
    ActionView,
> {
    match object {
        Some(room_name) => match room_from_name(room_name) {
            Some(room_type) => if is_adjacent(current_room, room_type) {
                seq![ActionView::Leave(current_room), ActionView::Enter(room_type)]
            } else {
                failure("You can't go to "@ + room_name + " from here."@)
            },
            None => failure("There is no room named \""@ + room_name + "\"."@),
        },
        None => failure("Specify a room to enter!"@),
    }
}

/// The actions that `pickup` with the given object stands for.
pub open spec fn pickup_actions(object: Option<Seq<char>>) -> Seq<ActionView> {
    if object == Some("crowbar"@) {
        seq![ActionView::PickUpCrowbar]
    } else if object == Some("keycard"@) {
        seq![ActionView::PickUpKeycard]
    } else {
        failure("No such item."@)
    }
}

/// The actions that `use` with the given object stands for.
pub open spec fn use_actions(object: Option<Seq<char>>) -> Seq<ActionView> {
    if object == Some("crowbar"@) {
        seq![ActionView::UseCrowbar]
    } else if object == Some("terminal"@) {
        seq![ActionView::UseTerminal]
    } else if object == Some("keycard"@) {
        seq![ActionView::UseKeycard]
    } else if object == Some("casket"@) {
        seq![ActionView::UseCasket]
    } else if object == Some("door"@) {
        seq![ActionView::UseDoor]
    } else {
        failure("No such item."@)
    }
}

/// The actions that a line stands for, for a player in `current_room`.
/// A line whose verb is unknown is answered with the list of verbs.
pub open spec fn command_actions(text: Seq<char>, current_room: RoomType) -> Seq<ActionView> {
    let verb = verb_of(text);
    let object = object_of(text);
    if verb == "enter"@ {
        enter_actions(object, current_room)
    } else if verb == "look"@ {
        seq![ActionView::ShowEnterText]
    } else if verb == "attack"@ {
        seq![ActionView::Attack]
    } else if verb == "dodge"@ {
        seq![ActionView::Dodge]
    } else if verb == "pickup"@ {
        pickup_actions(object)
    } else if verb == "use"@ {
        use_actions(object)
    } else {
        failure(help_text())
    }
}

/// The first space of a line is where the first space stands.
pub proof fn lemma_first_space(text: Seq<char>, i: int)
    requires
        0 <= i <= text.len(),
        forall|j: int| 0 <= j < i ==> text[j] != ' ',
        i == text.len() || text[i] == ' ',
    ensures
        first_space(text) == i,
    decreases i,
{
    if i > 0 {
        let rest = text.drop_first();
        assert forall|j: int| 0 <= j < i - 1 implies rest[j] != ' ' by {
            assert(rest[j] == text[j + 1]);
        }
        lemma_first_space(rest, i - 1);
    }
}

/// The word `enter`, a space and a name are read as a wish to enter the
/// room of that name: a room next door is left for, with a leave and an
/// enter in that order; a room further off and a name that no room bears
/// are each turned down with a message of their own that gives the name.
pub proof fn lemma_enter_command(name: Seq<char>, current_room: RoomType)
    requires
        name.len() > 0,
    ensures
        command_actions("enter "@ + name, current_room) == enter_actions(Some(name), current_room),
        room_from_name(name) is Some && is_adjacent(current_room, room_from_name(name)->0)
            ==> command_actions("enter "@ + name, current_room) == seq![
            ActionView::Leave(current_room),
            ActionView::Enter(room_from_name(name)->0),
        ],
        room_from_name(name) is None ==> command_actions("enter "@ + name, current_room)
            == failure("There is no room named \""@ + name + "\"."@),
{
    reveal_strlit("enter ");
    reveal_strlit("enter");
    let text = "enter "@ + name;
    assert(text[5] == ' ');
    lemma_first_space(text, 5);
    assert(verb_of(text) =~= "enter"@);
    assert(text.skip(6) =~= name);
}

/// Finds the first space of a line.
fn find_first_space(text: &str) -> (r: usize)
    ensures
        r == first_space(text@),
        r <= text@.len(),
{
    let len = text.unicode_len();
    let mut i: usize = 0;
    while i < len && text.get_char(i) != ' '
        invariant
            len == text@.len(),
            i <= len,
            forall|j: int| 0 <= j < i ==> text@[j] != ' ',
        decreases len - i,
    {
        i += 1;
    }
    proof {
        lemma_first_space(text@, i as int);
    }
    i
}

/// A message that tells the player that something did not work.
fn failure_message(text: String) -> (r: Vec<Action>)
    ensures
        actions_view(r@) == failure(text@),
{
    let r = vec![Action::Message(text, GameEventType::Failure)];
    assert(actions_view(r@) =~= failure(text@));
    r
}

/// A single action.
fn single(action: Action) -> (r: Vec<Action>)
    ensures
        actions_view(r@) == seq![action@],
{
    let r = vec![action];
    assert(actions_view(r@) =~= seq![action@]);
    r
}

/// The view of a borrowed text that may be absent.
pub open spec fn text_option_view(text: Option<&str>) -> Option<Seq<char>> {
    match text {
        Some(s) => Some(s@),
        None => None,
    }
}

/// Whether an object is there and reads as `word`.
fn object_is(object: Option<&str>, word: &str) -> (r: bool)
    ensures
        r == (text_option_view(object) == Some(word@)),
{
    match object {
        Some(s) => str_eq(s, word),
        None => false,
    }
}

/// Turns `enter` and its object into actions.
fn handle_enter(object: Option<&str>, current_room: RoomType) -> (r: Vec<Action>)
    ensures
        actions_view(r@) == enter_actions(text_option_view(object), current_room),
{
    match object {
        Some(room_name) => match room_type_from_name(room_name) {
            Some(room_type) => {
                if rooms_adjacent(current_room, room_type) {
                    let r = vec![Action::Leave(current_room), Action::Enter(room_type)];
                    assert(actions_view(r@) =~= seq![
                        ActionView::Leave(current_room),
                        ActionView::Enter(room_type),
                    ]);
                    r
                } else {
                    let mut text = String::from_str("You can't go to ");
                    text.append(room_name);
                    text.append(" from here.");
                    failure_message(text)
                }
            },
            None => {
                let mut text = String::from_str("There is no room named \"");
                text.append(room_name);
                text.append("\".");
                failure_message(text)
            },
        },
        None => failure_message(String::from_str("Specify a room to enter!")),
    }
}

/// Turns a line that the player typed into the actions it stands for.
pub fn try_handle_command(tokens: String, state: &State) -> (r: Vec<Action>)
    ensures
        actions_view(r@) == command_actions(tokens@, state@.current_room),
{
    let text = tokens.as_str();
    let len = text.unicode_len();
    let space = find_first_space(text);
    let verb = text.substring_char(0, space);
    let object = if space < len && space + 1 < len {
        Some(text.substring_char(space + 1, len))
    } else {
        None
    };
    proof {
        assert(verb@ =~= verb_of(tokens@));
        if space + 1 < len {
            assert(object->0@ =~= tokens@.skip(space + 1));
        }
        assert(text_option_view(object) == object_of(tokens@));
    }
    if str_eq(verb, "enter") {
        handle_enter(object, state.current_room)
    } else if str_eq(verb, "look") {
        single(Action::ShowEnterText)
    } else if str_eq(verb, "attack") {
        single(Action::Attack)
    } else if str_eq(verb, "dodge") {
        single(Action::Dodge)
    } else if str_eq(verb, "pickup") {
        if object_is(object, "crowbar") {
            single(Action::PickUpCrowbar)
        } else if object_is(object, "keycard") {
            single(Action::PickUpKeycard)
        } else {
            failure_message(String::from_str("No such item."))
        }
    } else if str_eq(verb, "use") {
        if object_is(object, "crowbar") {
            single(Action::UseCrowbar)
        } else if object_is(object, "terminal") {
            single(Action::UseTerminal)
        } else if object_is(object, "keycard") {
            single(Action::UseKeycard)
        } else if object_is(object, "casket") {
            single(Action::UseCasket)
        } else if object_is(object, "door") {
            single(Action::UseDoor)
        } else {
            failure_message(String::from_str("No such item."))
        }
    } else {
        failure_message(
            String::from_str("Use one of the following commands: enter, attack, dodge, pickup, use."),
        )
    }
}

} // verus!
