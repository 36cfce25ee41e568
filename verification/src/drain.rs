//! Draining the queue: taking pending actions off the front, one at a
//! time, and dispatching each before the next is looked at.
//!
//! Audio events are not handled here: they are taken off the queue and
//! handed to the caller, who passes them on to whoever plays sound.

use vstd::prelude::*;
use crate::action::{Action, ActionHandled, ActionView};
use crate::commands::command_actions;
use crate::dispatch::{App, AppView, lemma_claiming_room_acts_alone, lemma_rooms_claim_apart};
use crate::entities::enemy::{GenericEnemyView, INITIAL_ATTACK_DELAY, line_option_view};
use crate::event_queue::{
    EventQueueView,
    advance_all,
    done_pred,
    kind_pred,
    other_kind_pred,
    payloads,
    rewind_all,
    running_pred,
};
use crate::game_event::GameEventType;
use crate::global_handlers::{
    handle_action,
    handle_action_with,
    lemma_global_actions_reach_rules,
    lemma_some_pick_fits,
    pick_fits,
};
use crate::room::{
    Room,
    RoomEffect,
    RoomType,
    closed_text,
    entry_timers,
    intro_text,
    reading_time,
    room_specific,
};
use crate::rooms::corridor::CorridorRoom;
use crate::rooms::cryobay::CryobayRoom;
use crate::rooms::cryocontrol::{Cryocontrol, reboot_timer};
use crate::rooms::slush_lobby::SlushLobbyRoom;
use crate::sound::{AudioEvent, Effect};
use crate::state::StateView;
use crate::timer::{TimerType, TimerView};

verus! {

/// What one step of the drain did.
#[derive(Debug, Clone, Copy, PartialEq, Eq, Structural)]
pub enum StepOutcome {
    /// No action was pending.
    Idle,
    /// The front action was an audio event, which is handed out.
    Audio(AudioEvent),
    /// The front action was dispatched.
    Dispatched,
}

impl AppView {
    /// The world without the front action of its queue.
    pub open spec fn popped(self) -> AppView {
        AppView { event_queue: self.event_queue.without_front(), ..self }
    }

    /// What a step of the drain does, given the line drawn for it.
    pub open spec fn stepped(self, pick: Option<Seq<char>>) -> (AppView, StepOutcome) {
        match self.event_queue.front() {
            None => (self, StepOutcome::Idle),
            Some(ActionView::Audio(event)) => (self.popped(), StepOutcome::Audio(event)),
            Some(action) => (self.popped().handled(action, pick), StepOutcome::Dispatched),
        }
    }

    /// Whether `pick` is what the draw for the front action can give: the
    /// draw is made once the action is off the queue and no room has
    /// claimed it.
    pub open spec fn step_pick_fits(self, pick: Option<Seq<char>>) -> bool {
        match self.event_queue.front() {
            Some(action) => pick_fits(self.popped().room_dispatch(action).0.state, action, pick),
            None => pick is None,
        }
    }
}

/// Takes the front action off the queue and dispatches it with a given
/// line; an audio event is handed out instead. With an empty queue
/// nothing happens.
pub fn step_with(app: &mut App, pick: Option<String>) -> (r: StepOutcome)
    ensures
        (final(app)@, r) == old(app)@.stepped(line_option_view(pick)),
{
    match app.event_queue.get_next_action() {
        None => StepOutcome::Idle,
        Some(Action::Audio(event)) => StepOutcome::Audio(event),
        Some(next_action) => {
            handle_action_with(app, next_action, pick);
            StepOutcome::Dispatched
        },
    }
}

/// Takes the front action off the queue and dispatches it, with a line
/// drawn at random where it is an attack; an audio event is handed out
/// instead. With an empty queue nothing happens.
pub fn step(app: &mut App) -> (r: StepOutcome)
    ensures
        exists|pick: Option<Seq<char>>|
            old(app)@.step_pick_fits(pick) && (final(app)@, r) == old(app)@.stepped(pick),
{
    match app.event_queue.get_next_action() {
        None => {
            assert(old(app)@.step_pick_fits(None) && (app@, StepOutcome::Idle)
                == old(app)@.stepped(None));
            StepOutcome::Idle
        },
        Some(Action::Audio(event)) => {
            proof {
                let action = old(app)@.event_queue.front()->0;
                lemma_some_pick_fits(
                    old(app)@.popped().room_dispatch(action).0.state,
                    action,
                );
                let pick = choose|pick: Option<Seq<char>>|
                    pick_fits(old(app)@.popped().room_dispatch(action).0.state, action, pick);
                assert(old(app)@.step_pick_fits(pick) && (app@, StepOutcome::Audio(event))
                    == old(app)@.stepped(pick));
            }
            StepOutcome::Audio(event)
        },
        Some(next_action) => {
            let ghost popped = app@;
            handle_action(app, next_action);
            proof {
                let pick = choose|pick: Option<Seq<char>>|
                    pick_fits(popped.room_dispatch(next_action@).0.state, next_action@, pick)
                        && app@ == popped.handled(next_action@, pick);
                assert(old(app)@.step_pick_fits(pick) && (app@, StepOutcome::Dispatched)
                    == old(app)@.stepped(pick));
            }
            StepOutcome::Dispatched
        },
    }
}

/// Drains the queue: takes pending actions off the front and dispatches
/// them, those that handlers schedule on the way included, until none is
/// pending. The audio events met on the way are handed back in the order
/// in which they were met. The drain is the run of steps that `step`
/// would make, one for each pending action, and it always comes to an
/// end.
pub fn drain(app: &mut App) -> (audio: Vec<AudioEvent>)
    ensures
        final(app)@.event_queue.actions.len() == 0,
        exists|picks: Seq<Option<Seq<char>>>|
            is_drain_run(old(app)@, picks) && run(old(app)@, picks) == (final(app)@, audio@),
{
    let mut audio: Vec<AudioEvent> = Vec::new();
    let ghost mut picks: Seq<Option<Seq<char>>> = Seq::empty();
    while !app.event_queue.is_empty()
        invariant
            is_drain_run(old(app)@, picks),
            run(old(app)@, picks) == (app@, audio@),
        decreases app@.ticks(), app@.load(),
    {
        let ghost before = app@;
        let ghost heard = audio@;
        let outcome = step(app);
        proof {
            let pick = choose|pick: Option<Seq<char>>|
                before.step_pick_fits(pick) && (app@, outcome) == before.stepped(pick);
            lemma_step_leaves_less_to_do(before, pick);
            let earlier = picks;
            picks = picks.push(pick);
            assert(picks.drop_last() =~= earlier);
        }
        match outcome {
            StepOutcome::Audio(event) => {
                audio.push(event);
            },
            _ => {},
        }
    }
    audio
}

/// The work that an action can still cause: one for itself, and more for
/// each action that handling it may schedule. Handling an action never
/// schedules as much work as the action stood for.
pub open spec fn weight(action: ActionView) -> nat {
    match action {
        ActionView::Command(_) => 7,
        ActionView::Enter(_) => 5,
        ActionView::EnemyAttack => 3,
        ActionView::ShowEnterText => 3,
        ActionView::UseCasket => 3,
        ActionView::PlayerDied => 2,
        ActionView::Rebooted => 2,
        ActionView::Attack => 2,
        ActionView::Dodge => 2,
        ActionView::PickUpCrowbar => 2,
        ActionView::PickUpKeycard => 2,
        ActionView::UseCrowbar => 2,
        ActionView::UseKeycard => 2,
        ActionView::UseTerminal => 2,
        ActionView::OpenCorridor => 2,
        ActionView::OpenCryoControl => 2,
        _ => 1,
    }
}

/// The work that a sequence of actions can still cause.
pub open spec fn load_of(actions: Seq<ActionView>) -> nat
    decreases actions.len(),
{
    if actions.len() == 0 {
        0
    } else {
        load_of(actions.drop_last()) + weight(actions.last())
    }
}

/// The number of ticks among a sequence of actions.
pub open spec fn ticks_in(actions: Seq<ActionView>) -> nat
    decreases actions.len(),
{
    if actions.len() == 0 {
        0
    } else {
        ticks_in(actions.drop_last()) + if actions.last() is Tick {
            1nat
        } else {
            0nat
        }
    }
}

impl AppView {
    /// The number of ticks that are pending or carried by a timer. Only a
    /// tick can release what the timers carry, and nothing the rules do
    /// makes a new tick.
    pub open spec fn ticks(self) -> nat {
        ticks_in(self.event_queue.actions) + ticks_in(payloads(self.event_queue.timers))
    }

    /// The work that the pending actions can still cause.
    pub open spec fn load(self) -> nat {
        load_of(self.event_queue.actions)
    }

    /// Whether the world has less left to do than `before`: fewer ticks,
    /// or as many ticks and less work.
    pub open spec fn has_less_to_do_than(self, before: AppView) -> bool {
        self.ticks() < before.ticks() || (self.ticks() == before.ticks() && self.load()
            < before.load())
    }
}

/// The world and the audio events handed out after one step for each of
/// the lines, in order.
pub open spec fn run(world: AppView, picks: Seq<Option<Seq<char>>>) -> (AppView, Seq<AudioEvent>)
    decreases picks.len(),
{
    if picks.len() == 0 {
        (world, Seq::empty())
    } else {
        let (before, audio) = run(world, picks.drop_last());
        let (after, outcome) = before.stepped(picks.last());
        match outcome {
            StepOutcome::Audio(event) => (after, audio.push(event)),
            _ => (after, audio),
        }
    }
}

/// Whether a run of steps with these lines is one that a drain can make:
/// every step finds an action pending, and every line is what the draw
/// for that step can give.
pub open spec fn is_drain_run(world: AppView, picks: Seq<Option<Seq<char>>>) -> bool
    decreases picks.len(),
{
    picks.len() == 0 || {
        let before = run(world, picks.drop_last()).0;
        &&& is_drain_run(world, picks.drop_last())
        &&& before.event_queue.actions.len() > 0
        &&& before.step_pick_fits(picks.last())
    }
}

/// Pushing an action adds its work, and a tick if it is one.
pub proof fn lemma_pushed(actions: Seq<ActionView>, action: ActionView)
    ensures
        load_of(actions.push(action)) == load_of(actions) + weight(action),
        ticks_in(actions.push(action)) == ticks_in(actions) + if action is Tick {
            1nat
        } else {
            0nat
        },
{
    assert(actions.push(action).drop_last() =~= actions);
}

/// Pushing any action adds its work, and a tick if it is one.
pub proof fn lemma_pushed_any(actions: Seq<ActionView>)
    ensures
        forall|action: ActionView|
            load_of(#[trigger] actions.push(action)) == load_of(actions) + weight(action)
                && ticks_in(actions.push(action)) == ticks_in(actions) + if action is Tick {
                1nat
            } else {
                0nat
            },
{
    assert forall|action: ActionView|
        load_of(#[trigger] actions.push(action)) == load_of(actions) + weight(action) && ticks_in(
            actions.push(action),
        ) == ticks_in(actions) + if action is Tick {
            1nat
        } else {
            0nat
        } by {
        lemma_pushed(actions, action);
    }
}

/// Work and ticks add up over sequences put end to end.
pub proof fn lemma_appended(first: Seq<ActionView>, second: Seq<ActionView>)
    ensures
        load_of(first + second) == load_of(first) + load_of(second),
        ticks_in(first + second) == ticks_in(first) + ticks_in(second),
    decreases second.len(),
{
    if second.len() == 0 {
        assert(first + second =~= first);
    } else {
        lemma_appended(first, second.drop_last());
        assert((first + second).drop_last() =~= first + second.drop_last());
    }
}

/// Taking the front action off takes its work off, and a tick if it is one.
pub proof fn lemma_front_taken(actions: Seq<ActionView>)
    requires
        actions.len() > 0,
    ensures
        load_of(actions) == weight(actions[0]) + load_of(actions.drop_first()),
        ticks_in(actions) == ticks_in(actions.drop_first()) + if actions[0] is Tick {
            1nat
        } else {
            0nat
        },
{
    let front = Seq::<ActionView>::empty().push(actions[0]);
    lemma_pushed(Seq::empty(), actions[0]);
    lemma_appended(front, actions.drop_first());
    assert(front + actions.drop_first() =~= actions);
}

/// The work and the ticks of one action and of two.
pub proof fn lemma_listed(first: ActionView, second: ActionView)
    ensures
        load_of(seq![first]) == weight(first),
        load_of(seq![first, second]) == weight(first) + weight(second),
        ticks_in(seq![first]) == if first is Tick {
            1nat
        } else {
            0nat
        },
        ticks_in(seq![first, second]) == (if first is Tick {
            1nat
        } else {
            0nat
        }) + if second is Tick {
            1nat
        } else {
            0nat
        },
        load_of(Seq::empty()) == 0,
        ticks_in(Seq::empty()) == 0,
{
    lemma_pushed(Seq::empty(), first);
    lemma_pushed(Seq::<ActionView>::empty().push(first), second);
    assert(seq![first] =~= Seq::<ActionView>::empty().push(first));
    assert(seq![first, second] =~= Seq::<ActionView>::empty().push(first).push(second));
}

/// A filter and its opposite split the ticks that timers carry.
pub proof fn lemma_ticks_split(
    timers: Seq<TimerView>,
    kept: spec_fn(TimerView) -> bool,
    dropped: spec_fn(TimerView) -> bool,
)
    requires
        forall|t: TimerView| #[trigger] kept(t) == !dropped(t),
    ensures
        ticks_in(payloads(timers.filter(kept))) + ticks_in(payloads(timers.filter(dropped)))
            == ticks_in(payloads(timers)),
    decreases timers.len(),
{
    reveal(Seq::filter);
    if timers.len() == 0 {
        assert(payloads(timers) =~= Seq::empty());
    } else {
        let rest = timers.drop_last();
        let last = timers.last();
        lemma_ticks_split(rest, kept, dropped);
        assert(payloads(timers) =~= payloads(rest).push(last.action));
        lemma_pushed(payloads(rest), last.action);
        if kept(last) {
            assert(payloads(rest.filter(kept).push(last)) =~= payloads(rest.filter(kept)).push(
                last.action,
            ));
            lemma_pushed(payloads(rest.filter(kept)), last.action);
        } else {
            assert(dropped(last));
            assert(payloads(rest.filter(dropped).push(last)) =~= payloads(
                rest.filter(dropped),
            ).push(last.action));
            lemma_pushed(payloads(rest.filter(dropped)), last.action);
        }
    }
}

/// Actions of weight one that are no ticks weigh as many as they are.
pub proof fn lemma_light(actions: Seq<ActionView>)
    requires
        forall|i: int|
            0 <= i < actions.len() ==> weight(#[trigger] actions[i]) == 1 && !(actions[i] is Tick),
    ensures
        load_of(actions) == actions.len(),
        ticks_in(actions) == 0,
    decreases actions.len(),
{
    if actions.len() > 0 {
        lemma_light(actions.drop_last());
    }
}

/// Scheduling timers that carry no tick and actions adds the actions'
/// work and ticks, and nothing else.
pub proof fn lemma_scheduled(
    queue: EventQueueView,
    timers: Seq<TimerView>,
    actions: Seq<ActionView>,
)
    requires
        ticks_in(payloads(timers)) == 0,
    ensures
        load_of(queue.with_timers(timers).with_actions(actions).actions) == load_of(queue.actions)
            + load_of(actions),
        ticks_in(queue.with_timers(timers).with_actions(actions).actions) == ticks_in(
            queue.actions,
        ) + ticks_in(actions),
        ticks_in(payloads(queue.with_timers(timers).with_actions(actions).timers)) == ticks_in(
            payloads(queue.timers),
        ),
{
    lemma_appended(queue.actions, actions);
    lemma_appended(payloads(queue.timers), payloads(timers));
    assert(payloads(queue.timers + timers) =~= payloads(queue.timers) + payloads(timers));
}

/// Replacing the timers of a kind takes away the ticks that those
/// carried and adds the ticks that the new ones carry.
pub proof fn lemma_emplaced_ticks(
    queue: EventQueueView,
    kind: TimerType,
    emplacement: Seq<TimerView>,
)
    ensures
        ticks_in(payloads(queue.emplaced(kind, emplacement).timers)) + ticks_in(
            payloads(queue.timers_of(kind)),
        ) == ticks_in(payloads(queue.timers)) + ticks_in(payloads(emplacement)),
{
    let others = queue.timers.filter(other_kind_pred(kind));
    lemma_ticks_split(queue.timers, other_kind_pred(kind), kind_pred(kind));
    lemma_appended(payloads(others), payloads(emplacement));
    assert(payloads(others + emplacement) =~= payloads(others) + payloads(emplacement));
}

/// The timers of an attack carry no tick.
pub proof fn lemma_attack_timers_carry_no_tick(enemy: GenericEnemyView, delay: u64)
    ensures
        ticks_in(payloads(enemy.attack_timers(delay))) == 0,
{
    let carried = payloads(enemy.attack_timers(delay));
    assert(carried =~= seq![
        ActionView::EnemyAttack,
        ActionView::Audio(AudioEvent::Effect(Effect::EnemyAttack)),
    ]);
    lemma_listed(
        ActionView::EnemyAttack,
        ActionView::Audio(AudioEvent::Effect(Effect::EnemyAttack)),
    );
}

/// What a command stands for is less work than the command, and no tick.
pub proof fn lemma_command_is_lighter(text: Seq<char>, current_room: RoomType)
    ensures
        load_of(command_actions(text, current_room)) < weight(ActionView::Command(text)),
        ticks_in(command_actions(text, current_room)) == 0,
{
    let actions = command_actions(text, current_room);
    if actions.len() == 2 {
        assert(actions =~= seq![actions[0], actions[1]]);
        lemma_listed(actions[0], actions[1]);
    } else {
        assert(actions =~= seq![actions[0]]);
        lemma_listed(actions[0], actions[0]);
    }
}

/// Whether what a room schedules is lighter than the action it was
/// offered: light actions only, fewer than the action's weight if the room
/// claims it, none if it does not; and timers that carry no tick.
pub open spec fn is_lighter(effect: RoomEffect, action: ActionView) -> bool {
    &&& forall|i: int|
        0 <= i < effect.actions.len() ==> weight(#[trigger] effect.actions[i]) == 1 && !(
        effect.actions[i] is Tick)
    &&& ticks_in(payloads(effect.timers)) == 0
    &&& effect.handled == ActionHandled::Handled ==> effect.actions.len() < weight(action)
    &&& effect.handled == ActionHandled::NotHandled ==> effect.actions.len() == 0
}

/// What the cryobay schedules is lighter than what it was offered.
pub proof fn lemma_cryobay_is_lighter(room: CryobayRoom, state: StateView, action: ActionView)
    ensures
        is_lighter(room.effect(state, action), action),
{
    assert(payloads(Seq::<TimerView>::empty()) =~= Seq::empty());
}

/// What the slush lobby schedules is lighter than what it was offered.
pub proof fn lemma_slush_lobby_is_lighter(
    room: SlushLobbyRoom,
    state: StateView,
    action: ActionView,
)
    ensures
        is_lighter(room.effect(state, action), action),
{
    assert(payloads(Seq::<TimerView>::empty()) =~= Seq::empty());
}

/// What the cryo control room schedules is lighter than what it was
/// offered.
pub proof fn lemma_cryocontrol_is_lighter(room: Cryocontrol, state: StateView, action: ActionView)
    ensures
        is_lighter(room.effect(state, action), action),
{
    assert(payloads(Seq::<TimerView>::empty()) =~= Seq::empty());
    assert(payloads(seq![reboot_timer()]) =~= seq![ActionView::Rebooted]);
    lemma_listed(ActionView::Rebooted, ActionView::Rebooted);
}

/// What the corridor schedules is lighter than what it was offered.
pub proof fn lemma_corridor_is_lighter(room: CorridorRoom, state: StateView, action: ActionView)
    ensures
        is_lighter(room.effect(state, action), action),
{
    assert(payloads(Seq::<TimerView>::empty()) =~= Seq::empty());
}

/// Applying an effect that is lighter than its action adds less work
/// than the action stood for, and no tick.
pub proof fn lemma_lighter_applied(queue: EventQueueView, effect: RoomEffect, action: ActionView)
    requires
        is_lighter(effect, action),
    ensures
        ticks_in(effect.applied_to(queue).actions) == ticks_in(queue.actions),
        ticks_in(payloads(effect.applied_to(queue).timers)) == ticks_in(payloads(queue.timers)),
        load_of(effect.applied_to(queue).actions) == load_of(queue.actions) + effect.actions.len(),
{
    lemma_light(effect.actions);
    lemma_scheduled(queue, effect.timers, effect.actions);
}

/// A room that claims an action schedules less work than the action
/// stood for, and no tick; if no room claims it, the world is as it was.
pub proof fn lemma_rooms_are_lighter(world: AppView, action: ActionView)
    ensures
        world.room_dispatch(action).0.ticks() == world.ticks(),
        world.room_dispatch(action).1 == ActionHandled::Handled ==> world.room_dispatch(
            action,
        ).0.load() < world.load() + weight(action),
        world.room_dispatch(action).1 == ActionHandled::NotHandled ==> world.room_dispatch(
            action,
        ).0 == world,
{
    lemma_claiming_room_acts_alone(world, action);
    lemma_rooms_claim_apart(world, world, world, world, action);
    let queue = world.event_queue;
    if world.cryobay_claims(action) {
        let effect = world.rooms.cryobay.effect(world.state, action);
        lemma_cryobay_is_lighter(world.rooms.cryobay, world.state, action);
        lemma_lighter_applied(queue, effect, action);
    } else if world.slush_lobby_claims(action) {
        let effect = world.rooms.slush_lobby.effect(world.state, action);
        lemma_slush_lobby_is_lighter(world.rooms.slush_lobby, world.state, action);
        lemma_lighter_applied(queue, effect, action);
    } else if world.cryocontrol_claims(action) {
        let effect = world.rooms.cryocontrol.effect(world.state, action);
        lemma_cryocontrol_is_lighter(world.rooms.cryocontrol, world.state, action);
        lemma_lighter_applied(queue, effect, action);
    } else {
        let effect = world.rooms.corridor.effect(world.state, action);
        lemma_corridor_is_lighter(world.rooms.corridor, world.state, action);
        lemma_lighter_applied(queue, effect, action);
        assert(world.room_dispatch(action).0.event_queue == effect.applied_to(queue));
    }
}

/// Entering a room schedules at most four light actions and no tick.
pub proof fn lemma_entering_is_lighter(world: AppView, room_type: RoomType)
    ensures
        world.entered(room_type).load() <= world.load() + 3,
        world.entered(room_type).ticks() == world.ticks(),
{
    let added = seq![ActionView::Audio(AudioEvent::Track(room_type.track()))] + room_specific(
        world,
        room_type,
    ) + seq![
        ActionView::Message(
            intro_text(room_type, world.rooms.visited(room_type)),
            GameEventType::Normal,
        ),
    ];
    let timers = entry_timers(world, room_type);
    assert(world.entered(room_type).event_queue.actions =~= world.event_queue.actions + added);
    lemma_light(added);
    if world.state.enemy_in(room_type) is Some {
        lemma_attack_timers_carry_no_tick(
            world.state.enemy_in(room_type)->0,
            reading_time(room_type, world.rooms.visited(room_type)) as u64,
        );
    } else {
        assert(payloads(timers) =~= Seq::empty());
    }
    lemma_scheduled(world.event_queue, timers, added);
    assert(world.entered(room_type).event_queue == world.event_queue.with_timers(
        timers,
    ).with_actions(added));
}

/// The global rules schedule less work than the action stood for, and
/// make no tick.
pub proof fn lemma_rules_are_lighter(world: AppView, action: ActionView, pick: Option<Seq<char>>)
    requires
        !(action is Tick),
    ensures
        world.global_step(action, pick).ticks() <= world.ticks(),
        world.global_step(action, pick).load() < world.load() + weight(action),
{
    let after = world.global_step(action, pick);
    let queue = world.event_queue;
    match action {
        ActionView::ShowEnterText => {
            let hint = ActionView::Message(
                "You see the rat's keycard lying around in the corner."@,
                GameEventType::Normal,
            );
            lemma_pushed_any(queue.actions);
            lemma_pushed_any(queue.actions.push(hint));
        },
        ActionView::Enter(room_type) => {
            if world.rooms.opened(room_type) {
                let door = ActionView::Audio(AudioEvent::Effect(Effect::Door));
                lemma_pushed(queue.actions, door);
                lemma_entering_is_lighter(world.scheduled(door), room_type);
                lemma_entering_is_lighter(world, room_type);
            } else {
                lemma_pushed(
                    queue.actions,
                    ActionView::Message(closed_text(room_type), GameEventType::Failure),
                );
            }
        },
        ActionView::Command(text) => {
            lemma_command_is_lighter(text, world.state.current_room);
            lemma_appended(queue.actions, command_actions(text, world.state.current_room));
        },
        ActionView::EnemyAttack => {
            if world.state.current_enemy() is Some {
                let enemy = world.state.current_enemy()->0;
                lemma_attack_timers_carry_no_tick(enemy, 0);
                lemma_scheduled(queue, enemy.attack_timers(0), Seq::empty());
                assert(queue.with_timers(enemy.attack_timers(0)).with_actions(Seq::empty())
                    =~= queue.with_timers(enemy.attack_timers(0))) by {
                    assert(queue.actions + Seq::<ActionView>::empty() =~= queue.actions);
                }
                lemma_listed(ActionView::PlayerDied, ActionView::PlayerDied);
                lemma_pushed(queue.actions, ActionView::PlayerDied);
            }
        },
        ActionView::Attack => {
            let sound = ActionView::Audio(AudioEvent::Effect(Effect::PlayerAttack));
            lemma_pushed(queue.actions, sound);
            lemma_pushed(
                queue.actions,
                ActionView::Message("There is nothing you can attack."@, GameEventType::Failure),
            );
            lemma_emplaced_ticks(queue.with_action(sound), TimerType::EnemyAttack, Seq::empty());
            assert(payloads(Seq::<TimerView>::empty()) =~= Seq::empty());
        },
        ActionView::Dodge => {
            let threats = queue.timers_of(TimerType::EnemyAttack);
            lemma_emplaced_ticks(queue, TimerType::EnemyAttack, rewind_all(threats));
            assert(payloads(rewind_all(threats)) =~= payloads(threats));
            lemma_pushed_any(queue.actions);
        },
        ActionView::PlayerFinishedReading => {
            if world.state.current_enemy() is Some {
                let enemy = world.state.current_enemy()->0;
                lemma_attack_timers_carry_no_tick(enemy, INITIAL_ATTACK_DELAY);
                lemma_scheduled(queue, enemy.attack_timers(INITIAL_ATTACK_DELAY), Seq::empty());
                assert(queue.actions + Seq::<ActionView>::empty() =~= queue.actions);
            }
        },
        _ => {
            lemma_pushed_any(queue.actions);
        },
    }
}

/// A tick moves what the due timers carry into the queue: the ticks that
/// are pending or carried stay as many as they were.
pub proof fn lemma_tick_keeps_ticks(world: AppView, dt: u64)
    ensures
        world.on_tick(dt).ticks() == world.ticks(),
{
    let queue = world.event_queue;
    let advanced = advance_all(queue.timers, dt);
    lemma_ticks_split(advanced, done_pred(), running_pred());
    assert(payloads(advanced) =~= payloads(queue.timers));
    lemma_appended(queue.actions, payloads(advanced.filter(done_pred())));
}

/// Every step of a drain leaves less to do: a tick uses itself up, and
/// every other action stands for more work than it schedules. So no
/// action can keep the queue busy for ever.
pub proof fn lemma_step_leaves_less_to_do(world: AppView, pick: Option<Seq<char>>)
    requires
        world.event_queue.actions.len() > 0,
    ensures
        world.stepped(pick).0.has_less_to_do_than(world),
{
    let action = world.event_queue.actions[0];
    let popped = world.popped();
    lemma_front_taken(world.event_queue.actions);
    assert(popped.ticks() + (if action is Tick {
        1nat
    } else {
        0nat
    }) == world.ticks());
    assert(popped.load() + weight(action) == world.load());
    match action {
        ActionView::Audio(_) => {},
        ActionView::Tick(dt) => {
            lemma_global_actions_reach_rules(popped, action, pick);
            lemma_tick_keeps_ticks(popped, dt);
        },
        _ => {
            lemma_rooms_are_lighter(popped, action);
            let (offered, claimed) = popped.room_dispatch(action);
            if claimed != ActionHandled::Handled {
                lemma_rules_are_lighter(offered, action, pick);
            }
        },
    }
}

/// Whether `earlier` is how `later` begins.
pub open spec fn begins_with(later: Seq<ActionView>, earlier: Seq<ActionView>) -> bool {
    earlier.len() <= later.len() && later.take(earlier.len() as int) == earlier
}

/// A sequence with more put behind it begins as it did.
pub proof fn lemma_begins_with(earlier: Seq<ActionView>, added: Seq<ActionView>)
    ensures
        begins_with(earlier + added, earlier),
        forall|action: ActionView| begins_with(#[trigger] earlier.push(action), earlier),
{
    assert((earlier + added).take(earlier.len() as int) =~= earlier);
    assert forall|action: ActionView| begins_with(#[trigger] earlier.push(action), earlier) by {
        assert(earlier.push(action).take(earlier.len() as int) =~= earlier);
    }
}

/// Beginning-with carries over: what begins with a sequence that begins
/// with another begins with that one too.
pub proof fn lemma_begins_with_twice(
    last: Seq<ActionView>,
    middle: Seq<ActionView>,
    first: Seq<ActionView>,
)
    requires
        begins_with(last, middle),
        begins_with(middle, first),
    ensures
        begins_with(last, first),
{
    assert(last.take(first.len() as int) =~= middle.take(first.len() as int)) by {
        assert(last.take(middle.len() as int).take(first.len() as int) =~= last.take(
            first.len() as int,
        ));
    }
}

/// Rooms only add to the back of the queue.
pub proof fn lemma_rooms_only_append(world: AppView, action: ActionView)
    ensures
        begins_with(world.room_dispatch(action).0.event_queue.actions, world.event_queue.actions),
{
    lemma_claiming_room_acts_alone(world, action);
    lemma_rooms_claim_apart(world, world, world, world, action);
    let queue = world.event_queue.actions;
    lemma_begins_with(queue, world.rooms.cryobay.effect(world.state, action).actions);
    lemma_begins_with(queue, world.rooms.slush_lobby.effect(world.state, action).actions);
    lemma_begins_with(queue, world.rooms.cryocontrol.effect(world.state, action).actions);
    lemma_begins_with(queue, world.rooms.corridor.effect(world.state, action).actions);
}

/// The global rules only add to the back of the queue.
pub proof fn lemma_rules_only_append(world: AppView, action: ActionView, pick: Option<Seq<char>>)
    ensures
        begins_with(world.global_step(action, pick).event_queue.actions, world.event_queue.actions),
{
    let queue = world.event_queue.actions;
    lemma_begins_with(queue, Seq::empty());
    assert(queue + Seq::<ActionView>::empty() =~= queue);
    match action {
        ActionView::Enter(room_type) => {
            let door = ActionView::Audio(AudioEvent::Effect(Effect::Door));
            let track = ActionView::Audio(AudioEvent::Track(room_type.track()));
            let rest = room_specific(world, room_type) + seq![
                ActionView::Message(
                    intro_text(room_type, world.rooms.visited(room_type)),
                    GameEventType::Normal,
                ),
            ];
            let through_door = world.scheduled(door);
            assert(room_specific(through_door, room_type) == room_specific(world, room_type));
            lemma_begins_with(queue, seq![track] + rest);
            lemma_begins_with(queue, seq![door, track] + rest);
            assert(world.entered(room_type).event_queue.actions =~= queue + (seq![track] + rest));
            assert(through_door.entered(room_type).event_queue.actions =~= queue + (seq![
                door,
                track,
            ] + rest));
        },
        ActionView::ShowEnterText => {
            if world.keycard_in_sight() {
                let hinted = queue.push(
                    ActionView::Message(
                        "You see the rat's keycard lying around in the corner."@,
                        GameEventType::Normal,
                    ),
                );
                lemma_begins_with(hinted, Seq::empty());
                lemma_begins_with_twice(
                    world.global_step(action, pick).event_queue.actions,
                    hinted,
                    queue,
                );
            }
        },
        ActionView::Command(text) => {
            lemma_begins_with(queue, command_actions(text, world.state.current_room));
        },
        ActionView::Tick(dt) => {
            lemma_begins_with(
                queue,
                payloads(advance_all(world.event_queue.timers, dt).filter(done_pred())),
            );
        },
        _ => {},
    }
}

/// Handlers never take a pending action away nor put one in front of
/// another: whatever handling an action schedules stands behind all that
/// was pending. So the actions that a handler schedules are served after
/// those that were waiting already, in the order in which they were
/// scheduled.
pub proof fn lemma_handlers_only_append(
    world: AppView,
    action: ActionView,
    pick: Option<Seq<char>>,
)
    ensures
        begins_with(world.handled(action, pick).event_queue.actions, world.event_queue.actions),
{
    lemma_rooms_only_append(world, action);
    let (offered, claimed) = world.room_dispatch(action);
    if claimed != ActionHandled::Handled {
        lemma_rules_only_append(offered, action, pick);
        lemma_begins_with_twice(
            offered.global_step(action, pick).event_queue.actions,
            offered.event_queue.actions,
            world.event_queue.actions,
        );
    }
}

} // verus!
