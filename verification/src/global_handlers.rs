//! The global rules: what becomes of an action that no room has claimed.
//!
//! Combat is narrated with lines drawn at random from the enemy's own. The
//! draw is made apart from the rules, so that the rules themselves say
//! exactly what follows from an action, the state and the line drawn.

use vstd::prelude::*;
use vstd::string::*;
use crate::action::{Action, ActionHandled, ActionView};
use crate::dispatch::{App, AppView, lemma_claiming_room_acts_alone, lemma_rooms_claim_apart};
use crate::entities::enemy::{
    Enemy,
    GenericEnemyView,
    INITIAL_ATTACK_DELAY,
    health_after,
    line_option_view,
};
use crate::entities::player::PlayerView;
use crate::event_queue::{
    EventQueueView,
    lemma_emplaced,
    lemma_rewind_all,
    lemma_timers_of_kind,
    other_kind_pred,
    rewind_all,
};
use crate::game_event::{GameEventType, GameEventView};
use crate::room::{Room, RoomType, closed_message, closed_text, enter_room, intro_text, room_intro_text};
use crate::sound::{AudioEvent, Effect};
use crate::state::{State, StateView};
use crate::text::{i32_to_string, signed_decimal};
use crate::timer::{Timer, TimerType, TimerView, timers_view};

verus! {

/// Whether `pick` is what the draw for `action` can give in `state`: for
/// an attack of the player or of the enemy, with an enemy in the room, one
/// of the enemy's lines for that, or nothing if it has none; for
/// everything else, nothing.
pub open spec fn pick_fits(state: StateView, action: ActionView, pick: Option<Seq<char>>) -> bool {
    match (action, state.current_enemy()) {
        (ActionView::Attack, Some(enemy)) => GenericEnemyView::is_pick_among(
            enemy.attack_messages,
            pick,
        ),
        (ActionView::EnemyAttack, Some(enemy)) => GenericEnemyView::is_pick_among(
            enemy.enemy_attack_messages,
            pick,
        ),
        _ => pick is None,
    }
}

impl AppView {
    /// A message reaches the log, closed by a line break.
    pub open spec fn on_message(self, text: Seq<char>, kind: GameEventType) -> AppView {
        self.logged(text.push('\n'), kind)
    }

    /// The reboot has run: the player is told how it ends.
    pub open spec fn on_rebooted(self) -> AppView {
        self.told(
            "\"Initiating reboot.\" The room goes black. You notice a coldness quickly creeping into the air and start to shiver. As the air gets thinner and thinner, you slowly slip into unconsciousness."@,
            GameEventType::Failure,
        )
    }

    /// The player walks to a room. Through an open door they enter, to the
    /// sound of the door unless they crawl into the shaft; at a closed one
    /// they are told that it is closed, and nothing else changes.
    pub open spec fn on_enter(self, room_type: RoomType) -> AppView {
        if self.rooms.opened(room_type) {
            if room_type != RoomType::Corridor {
                self.scheduled(ActionView::Audio(AudioEvent::Effect(Effect::Door))).entered(
                    room_type,
                )
            } else {
                self.entered(room_type)
            }
        } else {
            self.told(closed_text(room_type), GameEventType::Failure)
        }
    }

    /// Whether the keycard is in sight: the player stands in the corridor,
    /// the keycard still lies there, and no enemy is in the way.
    pub open spec fn keycard_in_sight(self) -> bool {
        &&& self.state.current_room == RoomType::Corridor
        &&& self.rooms.corridor.keycard
        &&& self.state.current_enemy() is None
    }

    /// The player looks around: if the keycard is in sight it is pointed
    /// out, and then the text of the current room is read out as on a
    /// repeated visit.
    pub open spec fn on_show_enter_text(self) -> AppView {
        let hinted = if self.keycard_in_sight() {
            self.told(
                "You see the rat's keycard lying around in the corner."@,
                GameEventType::Normal,
            )
        } else {
            self
        };
        hinted.told(intro_text(self.state.current_room, true), GameEventType::Normal)
    }

    /// The enemy of the current room strikes, narrated by the line that
    /// was drawn: the player loses health, the blow is logged, the timers
    /// of the next attack start, and a player whose health is used up is
    /// marked as dead. Without an enemy in the room nothing happens.
    pub open spec fn on_enemy_attack(self, pick: Option<Seq<char>>) -> AppView {
        match self.state.current_enemy() {
            Some(enemy) => {
                let health = health_after(self.state.player.health, enemy.attack_strength);
                let struck = AppView {
                    log: seq![
                        GameEventView {
                            content: enemy.enemy_attack_message(pick) + " You lose "@
                                + signed_decimal(enemy.attack_strength) + " HP.\n"@,
                            game_event_type: GameEventType::Combat,
                        },
                    ] + self.log,
                    state: StateView {
                        player: PlayerView { health, ..self.state.player },
                        ..self.state
                    },
                    event_queue: self.event_queue.with_timers(enemy.attack_timers(0)),
                    ..self
                };
                if health <= 0 {
                    struck.scheduled(ActionView::PlayerDied)
                } else {
                    struck
                }
            },
            None => self,
        }
    }

    /// The player strikes the enemy of the current room, narrated by the
    /// line that was drawn. An enemy that survives has lost health, and
    /// the blow is logged. An enemy whose health is used up is taken out
    /// of its room, its death is logged, every attack timer is cancelled,
    /// and the sound of the blow is asked for. Without an enemy in the
    /// room the player is told so.
    pub open spec fn on_attack(self, pick: Option<Seq<char>>) -> AppView {
        match self.state.current_enemy() {
            Some(enemy) => {
                let hurt = enemy.hurt(self.state.player.attack_strength);
                if hurt.is_dead() {
                    AppView {
                        log: seq![
                            GameEventView {
                                content: enemy.death_message().push('\n'),
                                game_event_type: GameEventType::Failure,
                            },
                        ] + self.log,
                        state: StateView {
                            enemies: self.state.enemies.remove(self.state.current_room),
                            ..self.state
                        },
                        event_queue: self.event_queue.with_action(
                            ActionView::Audio(AudioEvent::Effect(Effect::PlayerAttack)),
                        ).emplaced(TimerType::EnemyAttack, Seq::empty()),
                        ..self
                    }
                } else {
                    AppView {
                        log: seq![
                            GameEventView {
                                content: enemy.attack_message(pick).push('\n'),
                                game_event_type: GameEventType::Combat,
                            },
                        ] + self.log,
                        state: StateView {
                            enemies: self.state.enemies.insert(self.state.current_room, hurt),
                            ..self.state
                        },
                        ..self
                    }
                }
            },
            None => self.told("There is nothing you can attack."@, GameEventType::Failure),
        }
    }

    /// The player has died: they are told so.
    pub open spec fn on_player_died(self) -> AppView {
        self.told("You died."@, GameEventType::Failure)
    }

    /// The player dodges. With no attack timer running nothing is reset,
    /// and the player gets one message, which depends on whether an enemy
    /// is in the room. With attack timers running, each of them starts
    /// over from zero, put back by replacing the timers of that kind, and
    /// the player is told which enemy they dodged. Should timers run with
    /// no enemy in the room, the log notes that instead.
    pub open spec fn on_dodge(self) -> AppView {
        let attack_timers = self.event_queue.timers_of(TimerType::EnemyAttack);
        if attack_timers.len() == 0 {
            match self.state.current_enemy() {
                Some(_) => self.told(
                    "You dodge the attack. The enemy calmly analyses your movements."@,
                    GameEventType::Failure,
                ),
                None => self.told(
                    "You dodge the attack of your own paranoia..."@,
                    GameEventType::Failure,
                ),
            }
        } else {
            let rearmed = AppView {
                event_queue: self.event_queue.emplaced(
                    TimerType::EnemyAttack,
                    rewind_all(attack_timers),
                ),
                ..self
            };
            match self.state.current_enemy() {
                Some(enemy) => rearmed.told(
                    "You dodge the "@ + enemy.enemy_type.name() + "'s attack."@,
                    GameEventType::Success,
                ),
                None => rearmed.logged(
                    "You dodged an attack, but no enemy is in this room.\n"@,
                    GameEventType::Debug,
                ),
            }
        }
    }

    /// Time passes for the timers.
    pub open spec fn on_tick(self, dt: u64) -> AppView {
        AppView { event_queue: self.event_queue.ticked(dt), ..self }
    }

    /// The player has read the room's text and starts to act. If an enemy
    /// is in the room and no attack timer runs yet, the timers of its
    /// first attack start and the danger is logged.
    pub open spec fn on_player_finished_reading(self) -> AppView {
        if self.event_queue.timers_of(TimerType::EnemyAttack).len() > 0 {
            self
        } else {
            match self.state.current_enemy() {
                Some(enemy) => AppView {
                    log: seq![
                        GameEventView {
                            content: "The "@ + enemy.enemy_type.name() + "'s attack is imminent.\n"@,
                            game_event_type: GameEventType::Combat,
                        },
                    ] + self.log,
                    event_queue: self.event_queue.with_timers(
                        enemy.attack_timers(INITIAL_ATTACK_DELAY),
                    ),
                    ..self
                },
                None => self,
            }
        }
    }

    /// An action that no rule knows is noted in the log, and nothing else
    /// happens.
    pub open spec fn on_unhandled(self, action: ActionView) -> AppView {
        self.logged("Unhandled action: "@ + action.name() + "\n"@, GameEventType::Debug)
    }

    /// The world after the global rules have handled `action`, with `pick`
    /// the line that was drawn for it.
    pub open spec fn global_step(self, action: ActionView, pick: Option<Seq<char>>) -> AppView {
        match action {
            ActionView::Message(text, kind) => self.on_message(text, kind),
            ActionView::Rebooted => self.on_rebooted(),
            ActionView::Enter(room_type) => self.on_enter(room_type),
            ActionView::Leave(_) => self,
            ActionView::ShowEnterText => self.on_show_enter_text(),
            ActionView::Command(text) => self.commanded(text),
            ActionView::EnemyAttack => self.on_enemy_attack(pick),
            ActionView::Attack => self.on_attack(pick),
            ActionView::PlayerDied => self.on_player_died(),
            ActionView::Dodge => self.on_dodge(),
            ActionView::Tick(dt) => self.on_tick(dt),
            ActionView::PlayerFinishedReading => self.on_player_finished_reading(),
            _ => self.on_unhandled(action),
        }
    }

    /// The world after `action` was dispatched: offered to the rooms, and
    /// handled by the global rules only if no room claimed it.
    pub open spec fn handled(self, action: ActionView, pick: Option<Seq<char>>) -> AppView {
        let (offered, claimed) = self.room_dispatch(action);
        if claimed == ActionHandled::Handled {
            offered
        } else {
            offered.global_step(action, pick)
        }
    }
}

/// Draws the line that narrates `action` in `state`: for an attack of the
/// player or of the enemy, with an enemy in the room, one of the enemy's
/// lines; for everything else, nothing.
pub fn draw_line(state: &State, action: &Action) -> (pick: Option<String>)
    ensures
        pick_fits(state@, action@, line_option_view(pick)),
{
    match action {
        Action::Attack => match state.get_current_enemy(state.current_room) {
            Some(enemy) => enemy.draw_attack_line(),
            None => None,
        },
        Action::EnemyAttack => match state.get_current_enemy(state.current_room) {
            Some(enemy) => enemy.draw_enemy_attack_line(),
            None => None,
        },
        _ => None,
    }
}

/// The enemy of the current room strikes.
fn handle_enemy_attack(app: &mut App, pick: Option<String>)
    ensures
        final(app)@ == old(app)@.on_enemy_attack(line_option_view(pick)),
{
    let room = app.state.current_room;
    let (timers, mut content, strength) = match app.state.get_current_enemy(room) {
        Some(enemy) => (
            enemy.get_attack_timers(0),
            enemy.enemy_attack_message_from(pick),
            enemy.get_attack_strength(),
        ),
        None => {
            return ;
        },
    };
    let ghost enemy = old(app)@.state.current_enemy()->0;
    content.append(" You lose ");
    content.append(i32_to_string(strength).as_str());
    content.append(" HP.\n");
    assert(content@ == enemy.enemy_attack_message(line_option_view(pick)) + " You lose "@
        + signed_decimal(enemy.attack_strength) + " HP.\n"@);
    app.event_queue.schedule_timers(timers);
    app.log_event(content, GameEventType::Combat);
    let dead = app.state.player.reduce_health(strength);
    if dead {
        app.event_queue.schedule_action(Action::PlayerDied);
    }
}

/// The player strikes the enemy of the current room.
fn handle_attack(app: &mut App, pick: Option<String>)
    ensures
        final(app)@ == old(app)@.on_attack(line_option_view(pick)),
{
    let damage = app.state.player.attack_strength;
    let room = app.state.current_room;
    let (dead, mut attack_message, mut death_message) = match app.state.get_current_enemy_mut(
        room,
    ) {
        Some(enemy) => {
            let attack_message = enemy.attack_message_from(pick);
            let death_message = enemy.get_death_message();
            let dead = enemy.reduce_health(damage);
            (dead, attack_message, death_message)
        },
        None => {
            app.tell(String::from_str("There is nothing you can attack."), GameEventType::Failure);
            return ;
        },
    };
    if dead {
        app.event_queue.schedule_action(Action::Audio(AudioEvent::Effect(Effect::PlayerAttack)));
        death_message.append("\n");
        app.log_event(death_message, GameEventType::Failure);
        app.event_queue.emplace_timers(TimerType::EnemyAttack, Vec::new());
        app.state.enemies.remove(room);
        proof {
            reveal_strlit("\n");
            let enemy = old(app)@.state.current_enemy()->0;
            assert("\n"@ =~= seq!['\n']);
            assert(enemy.death_message() + seq!['\n'] =~= enemy.death_message().push('\n'));
            assert(timers_view(Seq::<Timer>::empty()) =~= Seq::empty());
            assert(final(app)@.state.enemies =~= old(app)@.state.enemies.remove(room));
        }
    } else {
        attack_message.append("\n");
        app.log_event(attack_message, GameEventType::Combat);
        proof {
            reveal_strlit("\n");
            let enemy = old(app)@.state.current_enemy()->0;
            let line = enemy.attack_message(line_option_view(pick));
            assert("\n"@ =~= seq!['\n']);
            assert(line + seq!['\n'] =~= line.push('\n'));
        }
    }
}

/// The player dodges.
fn handle_dodge(app: &mut App)
    ensures
        final(app)@ == old(app)@.on_dodge(),
{
    let attack_timers = app.event_queue.get_timers(TimerType::EnemyAttack);
    let room = app.state.current_room;
    if attack_timers.len() == 0 {
        if app.state.enemies.contains_key(room) {
            app.tell(
                String::from_str("You dodge the attack. The enemy calmly analyses your movements."),
                GameEventType::Failure,
            );
        } else {
            app.tell(
                String::from_str("You dodge the attack of your own paranoia..."),
                GameEventType::Failure,
            );
        }
        return ;
    }
    let mut rewound: Vec<Timer> = Vec::new();
    let mut i: usize = 0;
    assert(timers_view(rewound@) =~= rewind_all(timers_view(attack_timers@).take(0)));
    while i < attack_timers.len()
        invariant
            i <= attack_timers.len(),
            timers_view(rewound@) == rewind_all(timers_view(attack_timers@).take(i as int)),
        decreases attack_timers.len() - i,
    {
        let mut timer = attack_timers[i].clone();
        timer.rewind();
        let ghost before = timers_view(rewound@);
        rewound.push(timer);
        proof {
            let all = timers_view(attack_timers@);
            assert(all.take(i + 1) =~= all.take(i as int).push(all[i as int]));
            assert(timers_view(rewound@) =~= before.push(timer@));
            assert(rewind_all(all.take(i + 1)) =~= rewind_all(all.take(i as int)).push(timer@));
        }
        i += 1;
    }
    assert(timers_view(attack_timers@).take(i as int) =~= timers_view(attack_timers@));
    app.event_queue.emplace_timers(TimerType::EnemyAttack, rewound);
    match app.state.get_current_enemy(room) {
        Some(enemy) => {
            let mut text = String::from_str("You dodge the ");
            text.append(enemy.get_enemy_type().display_name());
            text.append("'s attack.");
            app.tell(text, GameEventType::Success);
        },
        None => {
            app.log_event(
                String::from_str("You dodged an attack, but no enemy is in this room.\n"),
                GameEventType::Debug,
            );
        },
    }
}

/// The player has read the room's text and starts to act.
fn handle_player_finished_reading(app: &mut App)
    ensures
        final(app)@ == old(app)@.on_player_finished_reading(),
{
    let timers = app.event_queue.get_timers(TimerType::EnemyAttack);
    if timers.len() > 0 {
        return ;
    }
    let room_type = app.state.current_room;
    let (timers, content) = match app.state.get_current_enemy(room_type) {
        Some(enemy) => {
            let mut content = String::from_str("The ");
            content.append(enemy.get_enemy_type().display_name());
            content.append("'s attack is imminent.\n");
            (enemy.get_initial_attack_timers(), content)
        },
        None => {
            return ;
        },
    };
    app.event_queue.schedule_timers(timers);
    app.log_event(content, GameEventType::Combat);
}

/// Handles an action by the global rules, as if no room had claimed it.
/// `pick` is the line drawn to narrate it; it is read for attacks only.
pub fn handle_global_action(app: &mut App, next_action: Action, pick: Option<String>)
    ensures
        final(app)@ == old(app)@.global_step(next_action@, line_option_view(pick)),
{
    match next_action {
        Action::Message(mut message, game_event_type) => {
            message.append("\n");
            proof {
                reveal_strlit("\n");
                assert("\n"@ =~= seq!['\n']);
                assert(message@ =~= next_action@->Message_0.push('\n'));
            }
            app.log_event(message, game_event_type);
        },
        Action::Rebooted => {
            app.tell(
                String::from_str(
                    "\"Initiating reboot.\" The room goes black. You notice a coldness quickly creeping into the air and start to shiver. As the air gets thinner and thinner, you slowly slip into unconsciousness.",
                ),
                GameEventType::Failure,
            );
        },
        Action::Enter(room_type) => {
            if app.rooms.is_opened(room_type) {
                if room_type != RoomType::Corridor {
                    app.event_queue.schedule_action(
                        Action::Audio(AudioEvent::Effect(Effect::Door)),
                    );
                }
                enter_room(app, room_type);
            } else {
                app.tell(closed_message(room_type), GameEventType::Failure);
            }
        },
        Action::Leave(_) => {},
        Action::ShowEnterText => {
            let room = app.state.current_room;
            if room == RoomType::Corridor && app.rooms.corridor.keycard
                && !app.state.enemies.contains_key(room) {
                app.tell(
                    String::from_str("You see the rat's keycard lying around in the corner."),
                    GameEventType::Normal,
                );
            }
            app.tell(String::from_str(room_intro_text(room).0), GameEventType::Normal);
        },
        Action::Command(tokens) => app.try_handle_command(tokens),
        Action::EnemyAttack => handle_enemy_attack(app, pick),
        Action::Attack => handle_attack(app, pick),
        Action::PlayerDied => {
            app.tell(String::from_str("You died."), GameEventType::Failure);
        },
        Action::Dodge => handle_dodge(app),
        Action::Tick(dt) => {
            app.event_queue.tick(dt);
        },
        Action::PlayerFinishedReading => handle_player_finished_reading(app),
        action => {
            let mut content = String::from_str("Unhandled action: ");
            content.append(action.name());
            content.append("\n");
            app.log_event(content, GameEventType::Debug);
        },
    }
}

/// Dispatches an action with a given line: the rooms are offered it
/// first, and only if none claims it do the global rules handle it.
pub fn handle_action_with(app: &mut App, next_action: Action, pick: Option<String>)
    ensures
        final(app)@ == old(app)@.handled(next_action@, line_option_view(pick)),
{
    match app.try_handle_room_action(&next_action) {
        ActionHandled::Handled => {
            return ;
        },
        _ => (),
    }
    handle_global_action(app, next_action, pick);
}

/// Dispatches an action: the rooms are offered it first, and only if none
/// claims it do the global rules handle it, with a line drawn at random
/// where the action is an attack. Whatever line the draw gave, the world
/// afterwards is the one that the rules give for it.
pub fn handle_action(app: &mut App, next_action: Action)
    ensures
        exists|pick: Option<Seq<char>>|
            pick_fits(old(app)@.room_dispatch(next_action@).0.state, next_action@, pick)
                && final(app)@ == old(app)@.handled(next_action@, pick),
{
    match app.try_handle_room_action(&next_action) {
        ActionHandled::Handled => {
            proof {
                let (offered, claimed) = old(app)@.room_dispatch(next_action@);
                lemma_some_pick_fits(offered.state, next_action@);
                let pick = choose|pick: Option<Seq<char>>|
                    pick_fits(offered.state, next_action@, pick);
                assert(final(app)@ == old(app)@.handled(next_action@, pick));
            }
            return ;
        },
        _ => (),
    }
    let pick = draw_line(&app.state, &next_action);
    handle_global_action(app, next_action, pick);
    assert(final(app)@ == old(app)@.handled(next_action@, line_option_view(pick)));
}

/// Dispatches an action with a room of the caller's at the head of the
/// round: that room is offered the action before the rooms of the ship,
/// and if it claims the action, neither these nor the global rules see
/// it. Whatever the room is, its claim shuts all others out; and if it
/// does not claim the action, the dispatch goes as if it had not been
/// asked.
pub fn handle_action_after<R: Room>(guest: &mut R, app: &mut App, next_action: Action)
    ensures
        *final(guest) == old(guest).after_action(old(app)@.state, next_action@),
        old(guest).effect(old(app)@.state, next_action@).handled == ActionHandled::Handled
            ==> final(app)@ == old(app)@.offered_to(
            old(guest).effect(old(app)@.state, next_action@),
        ),
        old(guest).effect(old(app)@.state, next_action@).handled == ActionHandled::Handled
            ==> final(app)@.log == old(app)@.log && final(app).rooms == old(app).rooms,
        old(guest).effect(old(app)@.state, next_action@).handled != ActionHandled::Handled
            ==> *final(guest) == *old(guest) && exists|pick: Option<Seq<char>>|
            pick_fits(old(app)@.room_dispatch(next_action@).0.state, next_action@, pick)
                && final(app)@ == old(app)@.handled(next_action@, pick),
{
    match guest.handle_action(&mut app.state, &mut app.event_queue, &next_action) {
        ActionHandled::Handled => {
            return ;
        },
        _ => (),
    }
    assert(app@ == old(app)@);
    handle_action(app, next_action);
}

/// Some line always fits: the draw has an outcome in every state.
pub proof fn lemma_some_pick_fits(state: StateView, action: ActionView)
    ensures
        exists|pick: Option<Seq<char>>| pick_fits(state, action, pick),
{
    let lines = match (action, state.current_enemy()) {
        (ActionView::Attack, Some(enemy)) => enemy.attack_messages,
        (ActionView::EnemyAttack, Some(enemy)) => enemy.enemy_attack_messages,
        _ => Seq::empty(),
    };
    let pick = if lines.len() == 0 {
        None
    } else {
        Some(lines[0])
    };
    assert(pick_fits(state, action, pick));
}

/// A room's claim shuts the global rules out: if a room claims an action,
/// the world afterwards is the one that the rooms left, whatever line was
/// drawn, and the log has not grown.
pub proof fn lemma_room_preempts_global(world: AppView, action: ActionView, pick: Option<Seq<char>>)
    requires
        world.room_dispatch(action).1 == ActionHandled::Handled,
    ensures
        world.handled(action, pick) == world.room_dispatch(action).0,
        world.handled(action, pick).log == world.log,
{
    lemma_claiming_room_acts_alone(world, action);
}

/// Combat and time are never claimed by a room: attacks, dodges, ticks,
/// messages, commands, moves and looks always reach the global rules,
/// with the world as it was.
pub proof fn lemma_global_actions_reach_rules(
    world: AppView,
    action: ActionView,
    pick: Option<Seq<char>>,
)
    requires
        action is Attack || action is EnemyAttack || action is Dodge || action is Tick
            || action is Message || action is Command || action is Enter || action is Leave
            || action is PlayerDied || action is PlayerFinishedReading || action is Rebooted
            || action is ShowEnterText,
    ensures
        world.room_dispatch(action) == (world, ActionHandled::NotHandled),
        world.handled(action, pick) == world.global_step(action, pick),
{
    lemma_claiming_room_acts_alone(world, action);
}

/// The rooms leave the enemies alone: whatever a room makes of an action,
/// every room harbours the enemy it harboured, and the player stays where
/// they are.
pub proof fn lemma_rooms_leave_enemies(world: AppView, action: ActionView)
    ensures
        world.room_dispatch(action).0.state.enemies == world.state.enemies,
        world.room_dispatch(action).0.state.current_room == world.state.current_room,
{
    lemma_claiming_room_acts_alone(world, action);
    lemma_rooms_claim_apart(world, world, world, world, action);
}

/// No room harbours a dead enemy: if every enemy is alive before an
/// action is dispatched, every enemy that is left is alive afterwards. An
/// enemy whose health is used up is taken out of its room by the blow
/// that kills it.
pub proof fn lemma_enemies_stay_alive(world: AppView, action: ActionView, pick: Option<Seq<char>>)
    requires
        world.state.enemies_alive(),
    ensures
        world.handled(action, pick).state.enemies_alive(),
{
    lemma_rooms_leave_enemies(world, action);
    let (offered, claimed) = world.room_dispatch(action);
    assert(offered.state.enemies_alive());
    if claimed != ActionHandled::Handled {
        let after = offered.global_step(action, pick);
        match action {
            ActionView::Attack => {
                assert(after.state.enemies_alive());
            },
            ActionView::Enter(room_type) => {
                assert(after.state.enemies == offered.state.enemies);
            },
            ActionView::EnemyAttack => {
                assert(after.state.enemies == offered.state.enemies);
            },
            _ => {
                assert(after.state == offered.state);
            },
        }
    }
}

/// The world after one attack for each of the lines drawn, in order.
pub open spec fn attacked(world: AppView, picks: Seq<Option<Seq<char>>>) -> AppView
    decreases picks.len(),
{
    if picks.len() == 0 {
        world
    } else {
        attacked(world, picks.drop_last()).handled(ActionView::Attack, picks.last())
    }
}

/// Blows of strength zero do no harm, however many: a live enemy keeps
/// its health and its room, no timer is touched and nothing is scheduled.
/// Each blow only adds its line to the log.
pub proof fn lemma_zero_strength_attacks(world: AppView, picks: Seq<Option<Seq<char>>>)
    requires
        world.state.player.attack_strength == 0,
        world.state.current_enemy() is Some,
        world.state.current_enemy()->0.in_range(),
        !world.state.current_enemy()->0.is_dead(),
    ensures
        attacked(world, picks).state == world.state,
        attacked(world, picks).event_queue == world.event_queue,
        attacked(world, picks).rooms == world.rooms,
        attacked(world, picks).log.len() == world.log.len() + picks.len(),
    decreases picks.len(),
{
    if picks.len() > 0 {
        lemma_zero_strength_attacks(world, picks.drop_last());
        let before = attacked(world, picks.drop_last());
        lemma_global_actions_reach_rules(before, ActionView::Attack, picks.last());
        let enemy = before.state.current_enemy()->0;
        assert(enemy.hurt(0) == enemy);
        assert(before.state.enemies.insert(before.state.current_room, enemy)
            =~= before.state.enemies);
    }
}

/// Death cancels the attacks to come: after a blow that uses up the
/// enemy's health, the enemy is gone from its room and no attack timer is
/// active; the timers of other kinds run on.
pub proof fn lemma_death_cancels_attacks(world: AppView, pick: Option<Seq<char>>)
    requires
        world.state.current_enemy() is Some,
        world.state.current_enemy()->0.hurt(world.state.player.attack_strength).is_dead(),
    ensures
        world.handled(ActionView::Attack, pick).event_queue.timers_of(TimerType::EnemyAttack)
            == Seq::<TimerView>::empty(),
        world.handled(ActionView::Attack, pick).event_queue.timers == world.event_queue.emplaced(
            TimerType::EnemyAttack,
            Seq::empty(),
        ).timers,
        world.handled(ActionView::Attack, pick).event_queue.timers.filter(
            other_kind_pred(TimerType::EnemyAttack),
        ) == world.event_queue.timers.filter(other_kind_pred(TimerType::EnemyAttack)),
        world.handled(ActionView::Attack, pick).state.current_enemy() is None,
        world.handled(ActionView::Attack, pick).state.current_room == world.state.current_room,
{
    lemma_global_actions_reach_rules(world, ActionView::Attack, pick);
    let after = world.on_attack(pick);
    assert(world.handled(ActionView::Attack, pick) == after);
    let queued = world.event_queue.with_action(
        ActionView::Audio(AudioEvent::Effect(Effect::PlayerAttack)),
    );
    assert(after.event_queue == queued.emplaced(TimerType::EnemyAttack, Seq::empty()));
    assert(queued.timers == world.event_queue.timers);
    lemma_emplaced(queued, TimerType::EnemyAttack, Seq::empty());
}

/// A dodge needs a threat. With no attack timer active, a dodge resets no
/// timer and changes nothing but the queue, which gets exactly one
/// message: one text if an enemy is in the room, another if none is.
pub proof fn lemma_dodge_without_threat(world: AppView, pick: Option<Seq<char>>)
    requires
        world.event_queue.timers_of(TimerType::EnemyAttack).len() == 0,
    ensures
        ({
            let after = world.handled(ActionView::Dodge, pick);
            let text = if world.state.current_enemy() is Some {
                "You dodge the attack. The enemy calmly analyses your movements."@
            } else {
                "You dodge the attack of your own paranoia..."@
            };
            &&& after.event_queue.timers == world.event_queue.timers
            &&& after.event_queue.actions == world.event_queue.actions.push(
                ActionView::Message(text, GameEventType::Failure),
            )
            &&& after.state == world.state
            &&& after.rooms == world.rooms
            &&& after.log == world.log
        }),
{
    lemma_global_actions_reach_rules(world, ActionView::Dodge, pick);
}

/// With attack timers active, a dodge puts the attack off: afterwards the
/// attack timers are the same timers with their elapsed time at zero, put
/// back by replacement, and the timers of other kinds are untouched.
pub proof fn lemma_dodge_with_threat(world: AppView, pick: Option<Seq<char>>)
    requires
        world.event_queue.timers_of(TimerType::EnemyAttack).len() > 0,
    ensures
        world.handled(ActionView::Dodge, pick).event_queue.timers == world.event_queue.emplaced(
            TimerType::EnemyAttack,
            rewind_all(world.event_queue.timers_of(TimerType::EnemyAttack)),
        ).timers,
        world.handled(ActionView::Dodge, pick).event_queue.timers_of(TimerType::EnemyAttack)
            == rewind_all(world.event_queue.timers_of(TimerType::EnemyAttack)),
        world.handled(ActionView::Dodge, pick).event_queue.timers_of(
            TimerType::EnemyAttack,
        ).len() == world.event_queue.timers_of(TimerType::EnemyAttack).len(),
        forall|i: int|
            0 <= i < world.event_queue.timers_of(TimerType::EnemyAttack).len() ==> (
            #[trigger] rewind_all(world.event_queue.timers_of(TimerType::EnemyAttack))[i])
                == world.event_queue.timers_of(TimerType::EnemyAttack)[i].rewound(),
        world.handled(ActionView::Dodge, pick).event_queue.timers.filter(
            other_kind_pred(TimerType::EnemyAttack),
        ) == world.event_queue.timers.filter(other_kind_pred(TimerType::EnemyAttack)),
        world.handled(ActionView::Dodge, pick).state == world.state,
        world.handled(ActionView::Dodge, pick).rooms == world.rooms,
{
    let after = world.handled(ActionView::Dodge, pick);
    assert(after == world.on_dodge()) by {
        lemma_global_actions_reach_rules(world, ActionView::Dodge, pick);
    }
    lemma_on_dodge_with_threat(world);
    lemma_rearmed(world.event_queue);
}

/// A dodge under threat replaces the attack timers and leaves state and
/// rooms alone.
proof fn lemma_on_dodge_with_threat(world: AppView)
    requires
        world.event_queue.timers_of(TimerType::EnemyAttack).len() > 0,
    ensures
        world.on_dodge().event_queue.timers == world.event_queue.emplaced(
            TimerType::EnemyAttack,
            rewind_all(world.event_queue.timers_of(TimerType::EnemyAttack)),
        ).timers,
        world.on_dodge().state == world.state,
        world.on_dodge().rooms == world.rooms,
{
}

/// Replacing the attack timers by themselves, rewound, changes those and
/// no others.
proof fn lemma_rearmed(queue: EventQueueView)
    ensures
        ({
            let threats = queue.timers_of(TimerType::EnemyAttack);
            let rearmed = queue.emplaced(TimerType::EnemyAttack, rewind_all(threats));
            &&& rearmed.timers_of(TimerType::EnemyAttack) == rewind_all(threats)
            &&& rewind_all(threats).len() == threats.len()
            &&& forall|i: int|
                0 <= i < threats.len() ==> (#[trigger] rewind_all(threats)[i])
                    == threats[i].rewound()
            &&& rearmed.timers.filter(other_kind_pred(TimerType::EnemyAttack))
                == queue.timers.filter(other_kind_pred(TimerType::EnemyAttack))
        }),
{
    let threats = queue.timers_of(TimerType::EnemyAttack);
    let rewound = rewind_all(threats);
    lemma_timers_of_kind(queue, TimerType::EnemyAttack);
    lemma_rewind_all(threats);
    assert forall|i: int| 0 <= i < rewound.len() implies (#[trigger] rewound[i]).timer_type
        == TimerType::EnemyAttack by {
        assert(rewound[i] == threats[i].rewound());
        assert(threats[i].timer_type == TimerType::EnemyAttack);
    }
    lemma_emplaced(queue, TimerType::EnemyAttack, rewound);
}

} // verus!
