//! Actions: the events that flow through the queue.

use vstd::prelude::*;
use crate::entities::player::Item;
use crate::game_event::GameEventType;
use crate::room::RoomType;
use crate::sound::AudioEvent;

verus! {

/// What a handler says of an action it was offered.
#[derive(Debug, PartialEq, Eq, Structural, Clone, Copy)]
pub enum ActionHandled {
    Handled,
    NotHandled,
}

/// An event: a tick of the clock, something the player wants, or something
/// the rules decided. Actions are values; once queued they are only read.
#[derive(Debug, PartialEq, Eq, Hash)]
pub enum Action {
    // System actions.
    Tick(u64),
    Message(String, GameEventType),
    Command(String),
    PlayerFinishedReading,
    GameOver,
    // Player.
    Attack,
    Dodge,
    PickUp(Item),
    Enter(RoomType),
    Leave(RoomType),
    // Enemy attack.
    EnemyAttack,
    // Audio.
    Audio(AudioEvent),
    // Picking things up.
    PickUpKeycard,
    PickUpCrowbar,
    // Game logic.
    PlayerDied,
    UseDoor,
    UseKeycard,
    UseCrowbar,
    UseCasket,
    UseTerminal,
    // Opening rooms.
    OpenCorridor,
    OpenCryoControl,
    ShowEnterText,
    Rebooted,
}

/// An action as plain values: texts are sequences of characters.
pub enum ActionView {
    Tick(u64),
    Message(Seq<char>, GameEventType),
    Command(Seq<char>),
    PlayerFinishedReading,
    GameOver,
    Attack,
    Dodge,
    PickUp(Item),
    Enter(RoomType),
    Leave(RoomType),
    EnemyAttack,
    Audio(AudioEvent),
    PickUpKeycard,
    PickUpCrowbar,
    PlayerDied,
    UseDoor,
    UseKeycard,
    UseCrowbar,
    UseCasket,
    UseTerminal,
    OpenCorridor,
    OpenCryoControl,
    ShowEnterText,
    Rebooted,
}

impl View for Action {
    type V = ActionView;

    open spec fn view(&self) -> ActionView {
        match self {
            Action::Tick(dt) => ActionView::Tick(*dt),
            Action::Message(text, kind) => ActionView::Message(text@, *kind),
            Action::Command(text) => ActionView::Command(text@),
            Action::PlayerFinishedReading => ActionView::PlayerFinishedReading,
            Action::GameOver => ActionView::GameOver,
            Action::Attack => ActionView::Attack,
            Action::Dodge => ActionView::Dodge,
            Action::PickUp(item) => ActionView::PickUp(*item),
            Action::Enter(room) => ActionView::Enter(*room),
            Action::Leave(room) => ActionView::Leave(*room),
            Action::EnemyAttack => ActionView::EnemyAttack,
            Action::Audio(event) => ActionView::Audio(*event),
            Action::PickUpKeycard => ActionView::PickUpKeycard,
            Action::PickUpCrowbar => ActionView::PickUpCrowbar,
            Action::PlayerDied => ActionView::PlayerDied,
            Action::UseDoor => ActionView::UseDoor,
            Action::UseKeycard => ActionView::UseKeycard,
            Action::UseCrowbar => ActionView::UseCrowbar,
            Action::UseCasket => ActionView::UseCasket,
            Action::UseTerminal => ActionView::UseTerminal,
            Action::OpenCorridor => ActionView::OpenCorridor,
            Action::OpenCryoControl => ActionView::OpenCryoControl,
            Action::ShowEnterText => ActionView::ShowEnterText,
            Action::Rebooted => ActionView::Rebooted,
        }
    }
}

impl ActionView {
    /// The name of the action's kind, as it appears in diagnostics.
    pub open spec fn name(self) -> Seq<char> {
        match self {
            ActionView::Tick(_) => "Tick"@,
            ActionView::Message(_, _) => "Message"@,
            ActionView::Command(_) => "Command"@,
            ActionView::PlayerFinishedReading => "PlayerFinishedReading"@,
            ActionView::GameOver => "GameOver"@,
            ActionView::Attack => "Attack"@,
            ActionView::Dodge => "Dodge"@,
            ActionView::PickUp(_) => "PickUp"@,
            ActionView::Enter(_) => "Enter"@,
            ActionView::Leave(_) => "Leave"@,
            ActionView::EnemyAttack => "EnemyAttack"@,
            ActionView::Audio(_) => "Audio"@,
            ActionView::PickUpKeycard => "PickUpKeycard"@,
            ActionView::PickUpCrowbar => "PickUpCrowbar"@,
            ActionView::PlayerDied => "PlayerDied"@,
            ActionView::UseDoor => "UseDoor"@,
            ActionView::UseKeycard => "UseKeycard"@,
            ActionView::UseCrowbar => "UseCrowbar"@,
            ActionView::UseCasket => "UseCasket"@,
            ActionView::UseTerminal => "UseTerminal"@,
            ActionView::OpenCorridor => "OpenCorridor"@,
            ActionView::OpenCryoControl => "OpenCryoControl"@,
            ActionView::ShowEnterText => "ShowEnterText"@,
            ActionView::Rebooted => "Rebooted"@,
        }
    }
}

impl Action {
    /// The name of the action's kind, as it appears in diagnostics.
    pub fn name(&self) -> (r: &'static str)
        ensures
            r@ == self@.name(),
    {
        match self {
            Action::Tick(_) => "Tick",
            Action::Message(_, _) => "Message",
            Action::Command(_) => "Command",
            Action::PlayerFinishedReading => "PlayerFinishedReading",
            Action::GameOver => "GameOver",
            Action::Attack => "Attack",
            Action::Dodge => "Dodge",
            Action::PickUp(_) => "PickUp",
            Action::Enter(_) => "Enter",
            Action::Leave(_) => "Leave",
            Action::EnemyAttack => "EnemyAttack",
            Action::Audio(_) => "Audio",
            Action::PickUpKeycard => "PickUpKeycard",
            Action::PickUpCrowbar => "PickUpCrowbar",
            Action::PlayerDied => "PlayerDied",
            Action::UseDoor => "UseDoor",
            Action::UseKeycard => "UseKeycard",
            Action::UseCrowbar => "UseCrowbar",
            Action::UseCasket => "UseCasket",
            Action::UseTerminal => "UseTerminal",
            Action::OpenCorridor => "OpenCorridor",
            Action::OpenCryoControl => "OpenCryoControl",
            Action::ShowEnterText => "ShowEnterText",
            Action::Rebooted => "Rebooted",
        }
    }
}

impl Clone for Action {
    /// A copy that reads the same.
    fn clone(&self) -> (r: Self)
        ensures
            r@ == self@,
    {
        match self {
            Action::Tick(dt) => Action::Tick(*dt),
            Action::Message(text, kind) => Action::Message(text.clone(), *kind),
            Action::Command(text) => Action::Command(text.clone()),
            Action::PlayerFinishedReading => Action::PlayerFinishedReading,
            Action::GameOver => Action::GameOver,
            Action::Attack => Action::Attack,
            Action::Dodge => Action::Dodge,
            Action::PickUp(item) => Action::PickUp(*item),
            Action::Enter(room) => Action::Enter(*room),
            Action::Leave(room) => Action::Leave(*room),
            Action::EnemyAttack => Action::EnemyAttack,
            Action::Audio(event) => Action::Audio(*event),
            Action::PickUpKeycard => Action::PickUpKeycard,
            Action::PickUpCrowbar => Action::PickUpCrowbar,
            Action::PlayerDied => Action::PlayerDied,
            Action::UseDoor => Action::UseDoor,
            Action::UseKeycard => Action::UseKeycard,
            Action::UseCrowbar => Action::UseCrowbar,
            Action::UseCasket => Action::UseCasket,
            Action::UseTerminal => Action::UseTerminal,
            Action::OpenCorridor => Action::OpenCorridor,
            Action::OpenCryoControl => Action::OpenCryoControl,
            Action::ShowEnterText => Action::ShowEnterText,
            Action::Rebooted => Action::Rebooted,
        }
    }
}

/// The views of a sequence of actions, in order.
pub open spec fn actions_view(actions: Seq<Action>) -> Seq<ActionView> {
    actions.map_values(|a: Action| a@)
}

} // verus!
