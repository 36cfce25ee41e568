use cryo_quest::action::Action;
use cryo_quest::entities::enemy::{Enemy, EnemyType, GenericEnemy};
use cryo_quest::entities::player::{HealthLevel, Item, Player};
use cryo_quest::game_event::{GameEvent, GameEventType};
use cryo_quest::sound::{all_tracks, AudioEvent, Effect, Track};
use cryo_quest::state::State;
use cryo_quest::room::RoomType;
use cryo_quest::text::{i32_to_string, str_eq, u64_to_string};
use cryo_quest::timer::TimerType;

fn player(health: i32) -> Player {
    Player { health, attack_strength: 5, items: vec![] }
}

#[test]
fn state_starts_in_the_cryobay() {
    let state = State::new();
    assert_eq!(state.current_room, RoomType::Cryobay);
    assert_eq!(state.player.health, 100);
    assert_eq!(state.player.attack_strength, 5);
    assert!(state.player.items.is_empty());
    for room in [RoomType::Cryobay, RoomType::SlushLobby, RoomType::Cryocontrol, RoomType::Corridor] {
        assert!(state.get_current_enemy(room).is_none());
    }
}

#[test]
fn has_item_finds_owned_items_only() {
    let mut p = player(100);
    assert!(!p.has_item(Item::Crowbar));
    assert!(!p.has_item(Item::KeyCard));
    p.items.push(Item::Crowbar);
    assert!(p.has_item(Item::Crowbar));
    assert!(!p.has_item(Item::KeyCard));
    p.items.push(Item::KeyCard);
    p.items.push(Item::Crowbar);
    assert!(p.has_item(Item::KeyCard));
}

#[test]
fn health_levels_at_the_boundaries() {
    assert_eq!(player(-1).health_level(), HealthLevel::OffScale);
    assert_eq!(player(0).health_level(), HealthLevel::Low);
    assert_eq!(player(30).health_level(), HealthLevel::Low);
    assert_eq!(player(31).health_level(), HealthLevel::Medium);
    assert_eq!(player(70).health_level(), HealthLevel::Medium);
    assert_eq!(player(71).health_level(), HealthLevel::High);
    assert_eq!(player(100).health_level(), HealthLevel::High);
    assert_eq!(player(101).health_level(), HealthLevel::OffScale);
}

#[test]
fn player_reduce_health() {
    let mut p = player(10);
    assert!(!p.reduce_health(9));
    assert_eq!(p.health, 1);
    assert!(p.reduce_health(1));
    assert_eq!(p.health, 0);
    assert!(p.reduce_health(i32::MAX));
    assert!(p.reduce_health(i32::MAX));
    assert_eq!(p.health, i32::MIN);
    assert!(p.reduce_health(i32::MIN));
    assert_eq!(p.health, 0);
    assert!(!p.reduce_health(i32::MIN));
    assert_eq!(p.health, i32::MAX);
}

#[test]
fn enemy_getters_and_reduce_health() {
    let mut e = GenericEnemy::new(EnemyType::Roomba, 40, 20, 3000, vec![], vec![]);
    assert_eq!(e.get_enemy_type(), EnemyType::Roomba);
    assert_eq!(e.get_health(), 40);
    assert_eq!(e.get_attack_strength(), 20);
    assert!(!e.reduce_health(39));
    assert_eq!(e.get_health(), 1);
    assert!(!e.reduce_health(0));
    assert_eq!(e.get_health(), 1);
    assert!(e.reduce_health(1));
    assert_eq!(e.get_health(), 0);
    assert!(e.reduce_health(i32::MAX));
    assert!(e.reduce_health(i32::MAX));
    assert_eq!(e.get_health(), i32::MIN);
}

#[test]
fn enemy_messages_come_from_its_lines() {
    let e = GenericEnemy::new(
        EnemyType::Rat,
        10,
        5,
        8000,
        vec!["a".to_string(), "b".to_string(), "c".to_string()],
        vec!["x".to_string(), "y".to_string()],
    );
    let mut seen_attack = vec![];
    let mut seen_enemy = vec![];
    for _ in 0..300 {
        let m = e.get_attack_message();
        assert!(["a", "b", "c"].contains(&m.as_str()));
        if !seen_attack.contains(&m) {
            seen_attack.push(m);
        }
        let m = e.get_enemy_attack_message();
        assert!(["x", "y"].contains(&m.as_str()));
        if !seen_enemy.contains(&m) {
            seen_enemy.push(m);
        }
    }
    assert_eq!(seen_attack.len(), 3);
    assert_eq!(seen_enemy.len(), 2);
}

#[test]
fn enemy_without_lines_uses_plain_sentences() {
    let e = GenericEnemy::new(EnemyType::Rat, 10, 5, 8000, vec![], vec![]);
    assert_eq!(e.draw_attack_line(), None);
    assert_eq!(e.draw_enemy_attack_line(), None);
    assert_eq!(e.get_attack_message(), "You attack the Rat.");
    assert_eq!(e.get_enemy_attack_message(), "The Rat attacks!");
    assert_eq!(e.get_death_message(), "You have slain the Rat.");
    assert_eq!(e.attack_message_from(Some("Whack.".to_string())), "Whack.");
    assert_eq!(e.enemy_attack_message_from(Some("Bite.".to_string())), "Bite.");
    let r = GenericEnemy::new(EnemyType::Roomba, 10, 5, 8000, vec![], vec![]);
    assert_eq!(r.get_attack_message(), "You attack the Roomba.");
    assert_eq!(r.get_death_message(), "You have slain the Roomba.");
    assert_eq!(EnemyType::Roomba.display_name(), "Roomba");
}

#[test]
fn enemy_attack_timers() {
    let e = GenericEnemy::new(EnemyType::Roomba, 40, 20, 3000, vec![], vec![]);
    let timers = e.get_attack_timers(250);
    assert_eq!(timers.len(), 2);
    assert_eq!(timers[0].timer_type, TimerType::EnemyAttack);
    assert_eq!(timers[0].label, "The Roomba is preparing to attack you.");
    assert_eq!(timers[0].elapsed, 0);
    assert_eq!(timers[0].duration, 3250);
    assert_eq!(timers[0].action, Action::EnemyAttack);
    assert!(timers[0].is_visual);
    assert_eq!(timers[1].timer_type, TimerType::EnemyAttack);
    assert_eq!(timers[1].label, "");
    assert_eq!(timers[1].duration, 3250);
    assert_eq!(timers[1].action, Action::Audio(AudioEvent::Effect(Effect::EnemyAttack)));
    assert!(!timers[1].is_visual);
    let initial = e.get_initial_attack_timers();
    assert_eq!(initial[0].duration, 5000);
    assert_eq!(initial[1].duration, 5000);
}

#[test]
fn enemy_attack_timer_duration_stops_at_the_largest_value() {
    let e = GenericEnemy::new(EnemyType::Rat, 1, 1, u64::MAX - 10, vec![], vec![]);
    assert_eq!(e.get_attack_timers(5)[0].duration, u64::MAX - 5);
    assert_eq!(e.get_attack_timers(500)[0].duration, u64::MAX);
    assert_eq!(e.get_initial_attack_timers()[1].duration, u64::MAX);
}

#[test]
fn enemy_clone_reads_the_same() {
    let e = GenericEnemy::new(
        EnemyType::Rat,
        7,
        3,
        100,
        vec!["only".to_string()],
        vec!["bite".to_string()],
    );
    let c = e.clone();
    assert_eq!(c.get_enemy_type(), EnemyType::Rat);
    assert_eq!(c.get_health(), 7);
    assert_eq!(c.get_attack_strength(), 3);
    assert_eq!(c.get_attack_message(), "only");
    assert_eq!(c.get_enemy_attack_message(), "bite");
    assert_eq!(c.get_attack_timers(0)[0].duration, 100);
}

#[test]
fn numbers_are_written_in_base_ten() {
    assert_eq!(u64_to_string(0), "0");
    assert_eq!(u64_to_string(7), "7");
    assert_eq!(u64_to_string(10), "10");
    assert_eq!(u64_to_string(1234567890), "1234567890");
    assert_eq!(u64_to_string(u64::MAX), "18446744073709551615");
    assert_eq!(i32_to_string(0), "0");
    assert_eq!(i32_to_string(20), "20");
    assert_eq!(i32_to_string(-5), "-5");
    assert_eq!(i32_to_string(i32::MAX), "2147483647");
    assert_eq!(i32_to_string(i32::MIN), "-2147483648");
}

#[test]
fn str_eq_compares_contents() {
    assert!(str_eq("", ""));
    assert!(str_eq("enter", "enter"));
    assert!(!str_eq("enter", "Enter"));
    assert!(!str_eq("enter", "enter "));
}

#[test]
fn action_names() {
    assert_eq!(Action::Tick(5).name(), "Tick");
    assert_eq!(Action::Message("x".to_string(), GameEventType::Normal).name(), "Message");
    assert_eq!(Action::Command("x".to_string()).name(), "Command");
    assert_eq!(Action::PickUp(Item::Crowbar).name(), "PickUp");
    assert_eq!(Action::Enter(RoomType::Cryobay).name(), "Enter");
    assert_eq!(Action::OpenCryoControl.name(), "OpenCryoControl");
    assert_eq!(Action::Rebooted.name(), "Rebooted");
}

#[test]
fn action_clone_is_equal() {
    for a in [
        Action::Tick(5),
        Action::Message("x".to_string(), GameEventType::Combat),
        Action::Command("enter cryobay".to_string()),
        Action::PickUp(Item::KeyCard),
        Action::Leave(RoomType::Corridor),
        Action::Audio(AudioEvent::Track(Track::Intro)),
        Action::UseTerminal,
    ] {
        assert_eq!(a.clone(), a);
    }
}

#[test]
fn game_event_clone_is_equal() {
    let e = GameEvent { content: "text".to_string(), game_event_type: GameEventType::Debug };
    let c = e.clone();
    assert_eq!(c.content, "text");
    assert_eq!(c.game_event_type, GameEventType::Debug);
}

#[test]
fn all_tracks_lists_each_track_once() {
    assert_eq!(all_tracks(), vec![Track::Intro, Track::Complications, Track::Loop]);
}
