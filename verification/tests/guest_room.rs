use cryo_quest::action::{Action, ActionHandled, ActionView};
use cryo_quest::dispatch::App;
use cryo_quest::entities::enemy::{Enemy, EnemyType, GenericEnemy};
use cryo_quest::event_queue::EventQueue;
use cryo_quest::game_event::GameEventType;
use cryo_quest::global_handlers::handle_action_after;
use cryo_quest::room::{Room, RoomEffect, RoomType};
use cryo_quest::state::{State, StateView};

/// A room that claims every attack and every unknown action, and counts
/// what it was offered.
struct Claimer {
    offered: usize,
    claimed: usize,
}

impl Room for Claimer {
    // The model of the room is read by proofs only; at run time nothing calls it.
    fn opened(&self) -> bool {
        unreachable!()
    }

    fn visited(&self) -> bool {
        unreachable!()
    }

    fn after_open(&self) -> Self {
        unreachable!()
    }

    fn after_visit(&self) -> Self {
        unreachable!()
    }

    fn after_action(&self, _: StateView, _: ActionView) -> Self {
        unreachable!()
    }

    fn effect(&self, _: StateView, _: ActionView) -> RoomEffect {
        unreachable!()
    }

    fn lemma_declines_quietly(&self, _: StateView, _: ActionView) {
        unreachable!()
    }

    fn handle_action(
        &mut self,
        _state: &mut State,
        event_queue: &mut EventQueue,
        action: &Action,
    ) -> ActionHandled {
        self.offered += 1;
        match action {
            Action::Attack | Action::GameOver | Action::PickUpCrowbar => {
                self.claimed += 1;
                event_queue.schedule_action(Action::Message(
                    "claimed".to_string(),
                    GameEventType::Normal,
                ));
                ActionHandled::Handled
            }
            _ => ActionHandled::NotHandled,
        }
    }

    fn is_opened(&self) -> bool {
        true
    }

    fn open(&mut self) {}

    fn visit(&mut self) {}

    fn is_visited(&self) -> bool {
        true
    }
}

fn app_with_rat() -> App {
    let mut state = State::new();
    state.enemies.insert(
        RoomType::Cryobay,
        GenericEnemy::new(EnemyType::Rat, 10, 5, 8000, vec![], vec![]),
    );
    App::new(state)
}

#[test]
fn a_room_that_claims_an_attack_keeps_the_rules_from_it() {
    let mut guest = Claimer { offered: 0, claimed: 0 };
    let mut app = app_with_rat();
    handle_action_after(&mut guest, &mut app, Action::Attack);
    assert_eq!(guest.claimed, 1);
    assert!(app.log.is_empty());
    assert_eq!(app.state.get_current_enemy(RoomType::Cryobay).unwrap().get_health(), 10);
    assert_eq!(app.event_queue.actions.len(), 1);
    assert_eq!(
        app.event_queue.actions[0],
        Action::Message("claimed".to_string(), GameEventType::Normal)
    );
    assert!(app.event_queue.timers.is_empty());
}

#[test]
fn a_room_that_claims_keeps_the_other_rooms_from_the_action() {
    let mut guest = Claimer { offered: 0, claimed: 0 };
    let mut app = App::new(State::new());
    handle_action_after(&mut guest, &mut app, Action::PickUpCrowbar);
    assert!(app.rooms.cryobay.crowbar);
    assert!(app.state.player.items.is_empty());
    assert!(app.log.is_empty());
    assert_eq!(app.event_queue.actions.len(), 1);
}

#[test]
fn a_room_that_claims_an_unknown_action_keeps_the_log_from_growing() {
    let mut guest = Claimer { offered: 0, claimed: 0 };
    let mut app = App::new(State::new());
    handle_action_after(&mut guest, &mut app, Action::GameOver);
    assert!(app.log.is_empty());
    handle_action_after(&mut guest, &mut app, Action::UseDoor);
    assert_eq!(guest.offered, 2);
    assert_eq!(guest.claimed, 1);
    assert_eq!(app.log.len(), 1);
    assert_eq!(app.log[0].content, "Unhandled action: UseDoor\n");
}

#[test]
fn a_room_that_declines_leaves_queue_and_state_alone() {
    let mut guest = Claimer { offered: 0, claimed: 0 };
    let mut state = State::new();
    let mut queue = EventQueue::new();
    queue.schedule_action(Action::Dodge);
    for action in [Action::ShowEnterText, Action::Tick(5), Action::UseDoor] {
        assert_eq!(
            guest.handle_action(&mut state, &mut queue, &action),
            ActionHandled::NotHandled
        );
    }
    assert_eq!(queue.actions.len(), 1);
    assert!(queue.timers.is_empty());
    assert_eq!(state.player.health, 100);
    assert_eq!(guest.claimed, 0);
}

#[test]
fn a_room_that_does_not_claim_lets_the_rules_work() {
    let mut guest = Claimer { offered: 0, claimed: 0 };
    let mut app = app_with_rat();
    handle_action_after(&mut guest, &mut app, Action::EnemyAttack);
    assert_eq!(guest.offered, 1);
    assert_eq!(guest.claimed, 0);
    assert_eq!(app.state.player.health, 95);
    assert_eq!(app.log.len(), 1);
}
