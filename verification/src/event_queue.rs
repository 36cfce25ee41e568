//! The event queue: pending actions in FIFO order, and the active timers.

use vstd::prelude::*;
use std::collections::VecDeque;
use crate::action::{Action, ActionView, actions_view};
use crate::timer::{Timer, TimerType, TimerView, timers_view};

verus! {

/// Pending actions, served first in first out, and the timers that will
/// release further actions as time passes.
#[derive(Debug)]
pub struct EventQueue {
    pub actions: VecDeque<Action>,
    pub timers: Vec<Timer>,
}

/// The queue as plain values: `actions[0]` is served next.
pub struct EventQueueView {
    pub actions: Seq<ActionView>,
    pub timers: Seq<TimerView>,
}

impl View for EventQueue {
    type V = EventQueueView;

    open spec fn view(&self) -> EventQueueView {
        EventQueueView {
            actions: actions_view(self.actions@),
            timers: timers_view(self.timers@),
        }
    }
}

/// The view of an action that may be absent.
pub open spec fn action_option_view(action: Option<Action>) -> Option<ActionView> {
    match action {
        Some(a) => Some(a@),
        None => None,
    }
}

/// Picks the timers that have run out.
pub open spec fn done_pred() -> spec_fn(TimerView) -> bool {
    |t: TimerView| t.is_done()
}

/// Picks the timers that are still running.
pub open spec fn running_pred() -> spec_fn(TimerView) -> bool {
    |t: TimerView| !t.is_done()
}

/// Picks the timers that are shown as a progress bar.
pub open spec fn visual_pred() -> spec_fn(TimerView) -> bool {
    |t: TimerView| t.is_visual
}

/// Picks the timers of one kind.
pub open spec fn kind_pred(kind: TimerType) -> spec_fn(TimerView) -> bool {
    |t: TimerView| t.timer_type == kind
}

/// Picks the timers of every kind but one.
pub open spec fn other_kind_pred(kind: TimerType) -> spec_fn(TimerView) -> bool {
    |t: TimerView| t.timer_type != kind
}

/// Every timer after `dt` more milliseconds, in the same order.
pub open spec fn advance_all(timers: Seq<TimerView>, dt: u64) -> Seq<TimerView> {
    timers.map_values(|t: TimerView| t.advanced(dt))
}

/// The actions that the timers carry, in the timers' order.
pub open spec fn payloads(timers: Seq<TimerView>) -> Seq<ActionView> {
    timers.map_values(|t: TimerView| t.action)
}

/// Every timer with its elapsed time set back to zero, in the same order.
pub open spec fn rewind_all(timers: Seq<TimerView>) -> Seq<TimerView> {
    timers.map_values(|t: TimerView| t.rewound())
}

impl EventQueueView {
    /// The queue with no action and no timer.
    pub open spec fn empty() -> EventQueueView {
        EventQueueView { actions: Seq::empty(), timers: Seq::empty() }
    }

    /// The queue with one more action at the back.
    pub open spec fn with_action(self, action: ActionView) -> EventQueueView {
        EventQueueView { actions: self.actions.push(action), ..self }
    }

    /// The queue with more actions at the back, in their order.
    pub open spec fn with_actions(self, actions: Seq<ActionView>) -> EventQueueView {
        EventQueueView { actions: self.actions + actions, ..self }
    }

    /// The queue with one more active timer.
    pub open spec fn with_timer(self, timer: TimerView) -> EventQueueView {
        EventQueueView { timers: self.timers.push(timer), ..self }
    }

    /// The queue with more active timers.
    pub open spec fn with_timers(self, timers: Seq<TimerView>) -> EventQueueView {
        EventQueueView { timers: self.timers + timers, ..self }
    }

    /// The action that is served next, if any is pending.
    pub open spec fn front(self) -> Option<ActionView> {
        if self.actions.len() == 0 {
            None
        } else {
            Some(self.actions[0])
        }
    }

    /// The queue without its front action; an empty queue stays as it is.
    pub open spec fn without_front(self) -> EventQueueView {
        if self.actions.len() == 0 {
            self
        } else {
            EventQueueView { actions: self.actions.drop_first(), ..self }
        }
    }

    /// The active timers that are shown as a progress bar, in their
    /// order, but no more than `limit` of them.
    pub open spec fn visible_timers(self, limit: nat) -> Seq<TimerView> {
        let shown = self.timers.filter(visual_pred());
        if shown.len() <= limit {
            shown
        } else {
            shown.take(limit as int)
        }
    }

    /// The active timers of one kind, in their order.
    pub open spec fn timers_of(self, kind: TimerType) -> Seq<TimerView> {
        self.timers.filter(kind_pred(kind))
    }

    /// The queue after every timer of `kind` has been taken out and the
    /// timers of `emplacement` have been put in.
    pub open spec fn emplaced(self, kind: TimerType, emplacement: Seq<TimerView>) -> EventQueueView {
        EventQueueView {
            timers: self.timers.filter(other_kind_pred(kind)) + emplacement,
            ..self
        }
    }

    /// The queue after `dt` milliseconds: every timer has advanced, those
    /// that ran out have handed their action to the back of the queue, in
    /// the timers' order, and are gone from the active timers.
    pub open spec fn ticked(self, dt: u64) -> EventQueueView {
        let advanced = advance_all(self.timers, dt);
        EventQueueView {
            actions: self.actions + payloads(advanced.filter(done_pred())),
            timers: advanced.filter(running_pred()),
        }
    }
}

impl Default for EventQueue {
    /// A queue with no action and no timer.
    fn default() -> (r: Self)
        ensures
            r@ == EventQueueView::empty(),
    {
        EventQueue::new()
    }
}

impl EventQueue {
    /// A queue with no action and no timer.
    pub fn new() -> (r: Self)
        ensures
            r@ == EventQueueView::empty(),
    {
        let r = EventQueue { actions: VecDeque::new(), timers: Vec::new() };
        assert(r@.actions =~= Seq::empty());
        assert(r@.timers =~= Seq::empty());
        r
    }

    /// Puts an action at the back of the queue.
    pub fn schedule_action(&mut self, action: Action)
        ensures
            final(self)@ == old(self)@.with_action(action@),
    {
        self.actions.push_back(action);
        assert(final(self)@.actions =~= old(self)@.actions.push(action@));
    }

    /// Puts actions at the back of the queue, the first of them first.
    pub fn schedule_actions(&mut self, actions: Vec<Action>)
        ensures
            final(self)@ == old(self)@.with_actions(actions_view(actions@)),
    {
        let mut i: usize = 0;
        while i < actions.len()
            invariant
                i <= actions.len(),
                self.timers == old(self).timers,
                self@.actions == old(self)@.actions + actions_view(actions@.take(i as int)),
            decreases actions.len() - i,
        {
            let a = actions[i].clone();
            let ghost queued = self.actions@;
            self.actions.push_back(a);
            proof {
                assert(actions@.take(i + 1) =~= actions@.take(i as int).push(actions@[i as int]));
                assert(actions_view(actions@.take(i + 1)) =~= actions_view(
                    actions@.take(i as int),
                ).push(a@));
                assert(actions_view(queued.push(a)) =~= actions_view(queued).push(a@));
            }
            i += 1;
        }
        assert(actions@.take(i as int) =~= actions@);
    }

    /// Adds a timer to the active timers. Nothing is merged or dropped.
    pub fn schedule_timer(&mut self, timer: Timer)
        ensures
            final(self)@ == old(self)@.with_timer(timer@),
    {
        self.timers.push(timer);
        assert(final(self)@.timers =~= old(self)@.timers.push(timer@));
    }

    /// Adds timers to the active timers. Nothing is merged or dropped.
    pub fn schedule_timers(&mut self, timers: Vec<Timer>)
        ensures
            final(self)@ == old(self)@.with_timers(timers_view(timers@)),
    {
        let mut i: usize = 0;
        while i < timers.len()
            invariant
                i <= timers.len(),
                self.actions == old(self).actions,
                self@.timers == old(self)@.timers + timers_view(timers@.take(i as int)),
            decreases timers.len() - i,
        {
            let t = timers[i].clone();
            let ghost active = self.timers@;
            self.timers.push(t);
            proof {
                assert(timers@.take(i + 1) =~= timers@.take(i as int).push(timers@[i as int]));
                assert(timers_view(timers@.take(i + 1)) =~= timers_view(
                    timers@.take(i as int),
                ).push(t@));
                assert(timers_view(active.push(t)) =~= timers_view(active).push(t@));
            }
            i += 1;
        }
        assert(timers@.take(i as int) =~= timers@);
    }

    /// Lets `dt` milliseconds pass for every active timer. Each timer that
    /// is due afterwards hands its action to the back of the queue, once,
    /// and leaves the active timers.
    pub fn tick(&mut self, dt: u64)
        ensures
            final(self)@ == old(self)@.ticked(dt),
    {
        let mut kept: Vec<Timer> = Vec::new();
        let mut i: usize = 0;
        let ghost before = self@.timers;
        assert(timers_view(kept@) =~= Seq::empty());
        assert(before.take(0) =~= Seq::empty());
        assert(self@.actions =~= old(self)@.actions + Seq::empty());
        proof {
            lemma_filter_of_empty();
        }
        while i < self.timers.len()
            invariant
                i <= self.timers.len(),
                self.timers == old(self).timers,
                before == old(self)@.timers,
                before.len() == self.timers.len(),
                timers_view(kept@) == advance_all(before.take(i as int), dt).filter(
                    running_pred(),
                ),
                self@.actions == old(self)@.actions + payloads(
                    advance_all(before.take(i as int), dt).filter(done_pred()),
                ),
            decreases self.timers.len() - i,
        {
            let mut timer = self.timers[i].clone();
            timer.tick(dt);
            let ghost seen = advance_all(before.take(i as int), dt);
            proof {
                assert(before.take(i + 1) =~= before.take(i as int).push(before[i as int]));
                assert(advance_all(before.take(i + 1), dt) =~= seen.push(timer@));
                seen.lemma_filter_push(timer@, running_pred());
                seen.lemma_filter_push(timer@, done_pred());
            }
            if timer.is_done() {
                let ghost queued = self.actions@;
                let action = timer.action;
                self.actions.push_back(action);
                proof {
                    assert(actions_view(queued.push(action)) =~= actions_view(queued).push(
                        action@,
                    ));
                    assert(payloads(seen.filter(done_pred()).push(timer@)) =~= payloads(
                        seen.filter(done_pred()),
                    ).push(action@));
                }
            } else {
                kept.push(timer);
                assert(timers_view(kept@) =~= seen.push(timer@).filter(running_pred()));
            }
            i += 1;
        }
        assert(before.take(i as int) =~= before);
        self.timers = kept;
    }

    /// Whether no action is pending.
    pub fn is_empty(&self) -> (r: bool)
        ensures
            r == (self@.actions.len() == 0),
    {
        self.actions.len() == 0
    }

    /// Takes the front action off the queue, if there is one.
    pub fn get_next_action(&mut self) -> (r: Option<Action>)
        ensures
            r is Some <==> old(self)@.actions.len() > 0,
            action_option_view(r) == old(self)@.front(),
            final(self)@ == old(self)@.without_front(),
    {
        let r = self.actions.pop_front();
        proof {
            if r is Some {
                assert(final(self)@.actions =~= old(self)@.actions.drop_first());
            }
        }
        r
    }

    /// Copies of the active timers of one kind, in their order.
    pub fn get_timers(&self, timer_type: TimerType) -> (r: Vec<Timer>)
        ensures
            timers_view(r@) == self@.timers_of(timer_type),
    {
        let mut found: Vec<Timer> = Vec::new();
        let mut i: usize = 0;
        let ghost all = self@.timers;
        assert(timers_view(found@) =~= Seq::empty());
        assert(all.take(0) =~= Seq::empty());
        proof {
            lemma_filter_of_empty();
        }
        while i < self.timers.len()
            invariant
                i <= self.timers.len(),
                all == self@.timers,
                all.len() == self.timers.len(),
                timers_view(found@) == all.take(i as int).filter(kind_pred(timer_type)),
            decreases self.timers.len() - i,
        {
            proof {
                assert(all.take(i + 1) =~= all.take(i as int).push(all[i as int]));
                all.take(i as int).lemma_filter_push(all[i as int], kind_pred(timer_type));
            }
            if self.timers[i].timer_type == timer_type {
                let t = self.timers[i].clone();
                found.push(t);
                assert(timers_view(found@) =~= all.take(i as int).filter(
                    kind_pred(timer_type),
                ).push(all[i as int]));
            }
            i += 1;
        }
        assert(all.take(i as int) =~= all);
        found
    }

    /// Copies of the active timers that are shown as a progress bar, in
    /// their order, but no more than `limit` of them.
    pub fn get_visible_timers(&self, limit: usize) -> (r: Vec<Timer>)
        ensures
            timers_view(r@) == self@.visible_timers(limit as nat),
            r@.len() <= limit,
    {
        let mut found: Vec<Timer> = Vec::new();
        let mut i: usize = 0;
        let ghost all = self@.timers;
        assert(timers_view(found@) =~= Seq::empty());
        assert(all.take(0) =~= Seq::empty());
        proof {
            lemma_filter_of_empty();
        }
        while i < self.timers.len() && found.len() < limit
            invariant
                i <= self.timers.len(),
                all == self@.timers,
                all.len() == self.timers.len(),
                found@.len() <= limit,
                timers_view(found@) == all.take(i as int).filter(visual_pred()),
            decreases self.timers.len() - i,
        {
            proof {
                assert(all.take(i + 1) =~= all.take(i as int).push(all[i as int]));
                all.take(i as int).lemma_filter_push(all[i as int], visual_pred());
            }
            if self.timers[i].is_visual {
                let t = self.timers[i].clone();
                found.push(t);
                assert(timers_view(found@) =~= all.take(i as int).filter(visual_pred()).push(
                    all[i as int],
                ));
            }
            i += 1;
        }
        proof {
            let seen = all.take(i as int);
            let rest = all.skip(i as int);
            assert(seen + rest =~= all);
            Seq::filter_distributes_over_add(seen, rest, visual_pred());
            let shown = all.filter(visual_pred());
            assert(shown == seen.filter(visual_pred()) + rest.filter(visual_pred()));
            if i == self.timers.len() {
                assert(rest =~= Seq::empty());
                assert(shown =~= seen.filter(visual_pred()));
            } else {
                assert(found@.len() == limit);
                assert(shown.take(limit as int) =~= seen.filter(visual_pred()));
            }
        }
        found
    }

    /// Takes every timer of `timer_type` out of the active timers and puts
    /// those of `emplacement` in. An empty `emplacement` cancels the kind.
    pub fn emplace_timers(&mut self, timer_type: TimerType, emplacement: Vec<Timer>)
        ensures
            final(self)@ == old(self)@.emplaced(timer_type, timers_view(emplacement@)),
    {
        let mut kept: Vec<Timer> = Vec::new();
        let mut i: usize = 0;
        let ghost all = self@.timers;
        assert(timers_view(kept@) =~= Seq::empty());
        assert(all.take(0) =~= Seq::empty());
        proof {
            lemma_filter_of_empty();
        }
        while i < self.timers.len()
            invariant
                i <= self.timers.len(),
                *self == *old(self),
                all == self@.timers,
                all.len() == self.timers.len(),
                timers_view(kept@) == all.take(i as int).filter(other_kind_pred(timer_type)),
            decreases self.timers.len() - i,
        {
            proof {
                assert(all.take(i + 1) =~= all.take(i as int).push(all[i as int]));
                all.take(i as int).lemma_filter_push(all[i as int], other_kind_pred(timer_type));
            }
            if self.timers[i].timer_type != timer_type {
                let t = self.timers[i].clone();
                kept.push(t);
                assert(timers_view(kept@) =~= all.take(i as int).filter(
                    other_kind_pred(timer_type),
                ).push(all[i as int]));
            }
            i += 1;
        }
        assert(all.take(i as int) =~= all);
        self.timers = kept;
        self.schedule_timers(emplacement);
    }
}

/// One call on the queue's action side: scheduling an action, or asking
/// for the next one.
pub enum QueueOp {
    Schedule(ActionView),
    Next,
}

/// The queue after a run of calls, made in order.
pub open spec fn after_ops(queue: EventQueueView, ops: Seq<QueueOp>) -> EventQueueView
    decreases ops.len(),
{
    if ops.len() == 0 {
        queue
    } else {
        let before = after_ops(queue, ops.drop_last());
        match ops.last() {
            QueueOp::Schedule(action) => before.with_action(action),
            QueueOp::Next => before.without_front(),
        }
    }
}

/// The actions that a run of calls handed out, in the order of the calls.
pub open spec fn served_by(queue: EventQueueView, ops: Seq<QueueOp>) -> Seq<ActionView>
    decreases ops.len(),
{
    if ops.len() == 0 {
        Seq::empty()
    } else {
        let served = served_by(queue, ops.drop_last());
        match (ops.last(), after_ops(queue, ops.drop_last()).front()) {
            (QueueOp::Next, Some(action)) => served.push(action),
            _ => served,
        }
    }
}

/// The actions that a run of calls scheduled, in the order of the calls.
pub open spec fn scheduled_by(ops: Seq<QueueOp>) -> Seq<ActionView>
    decreases ops.len(),
{
    if ops.len() == 0 {
        Seq::empty()
    } else {
        match ops.last() {
            QueueOp::Schedule(action) => scheduled_by(ops.drop_last()).push(action),
            QueueOp::Next => scheduled_by(ops.drop_last()),
        }
    }
}

/// First in, first out: however scheduling and asking are interleaved, the
/// actions handed out, followed by those still pending, are the actions
/// that were pending at the start followed by those scheduled, in the
/// order in which they were scheduled. The timers are not touched.
pub proof fn lemma_fifo_order(queue: EventQueueView, ops: Seq<QueueOp>)
    ensures
        served_by(queue, ops) + after_ops(queue, ops).actions == queue.actions + scheduled_by(
            ops,
        ),
        after_ops(queue, ops).timers == queue.timers,
    decreases ops.len(),
{
    if ops.len() == 0 {
        assert(served_by(queue, ops) + after_ops(queue, ops).actions =~= queue.actions
            + scheduled_by(ops));
    } else {
        lemma_fifo_order(queue, ops.drop_last());
        let before = after_ops(queue, ops.drop_last());
        let served = served_by(queue, ops.drop_last());
        let scheduled = scheduled_by(ops.drop_last());
        assert(served + before.actions == queue.actions + scheduled);
        match ops.last() {
            QueueOp::Schedule(action) => {
                assert(served + before.actions.push(action) =~= (served + before.actions).push(
                    action,
                ));
                assert(queue.actions + scheduled.push(action) =~= (queue.actions
                    + scheduled).push(action));
            },
            QueueOp::Next => {
                if before.actions.len() > 0 {
                    assert(served.push(before.actions[0]) + before.actions.drop_first() =~= served
                        + before.actions);
                }
            },
        }
    }
}

/// The queue after a run of ticks, made in order.
pub open spec fn ticked_all(queue: EventQueueView, deltas: Seq<u64>) -> EventQueueView
    decreases deltas.len(),
{
    if deltas.len() == 0 {
        queue
    } else {
        ticked_all(queue, deltas.drop_last()).ticked(deltas.last())
    }
}

/// The time that a run of ticks lets pass.
pub open spec fn total_time(deltas: Seq<u64>) -> int
    decreases deltas.len(),
{
    if deltas.len() == 0 {
        0
    } else {
        total_time(deltas.drop_last()) + deltas.last()
    }
}

/// A timer fires exactly once, and exactly when its time is up. Take a
/// queue whose only timer is `timer`, and let any run of ticks pass. While
/// the ticks sum to less than what the timer has left, the timer stays
/// active, its elapsed time grown by that sum, and nothing is queued. Once
/// they sum to what is left or more (after one tick at least, which may be
/// of length zero), the timer is gone and its action stands in the queue
/// once, behind what was pending.
pub proof fn lemma_timer_fires_once(pending: Seq<ActionView>, timer: TimerView, deltas: Seq<u64>)
    ensures
        ({
            let start = EventQueueView { actions: pending, timers: seq![timer] };
            let end = ticked_all(start, deltas);
            if deltas.len() == 0 {
                end == start
            } else if timer.elapsed + total_time(deltas) >= timer.duration {
                end == (EventQueueView { actions: pending.push(timer.action), timers: Seq::empty() })
            } else {
                end == (EventQueueView {
                    actions: pending,
                    timers: seq![
                        TimerView {
                            elapsed: (timer.elapsed + total_time(deltas)) as u64,
                            ..timer
                        },
                    ],
                })
            }
        }),
        total_time(deltas) >= 0,
    decreases deltas.len(),
{
    let start = EventQueueView { actions: pending, timers: seq![timer] };
    if deltas.len() > 0 {
        let earlier = deltas.drop_last();
        let dt = deltas.last();
        lemma_timer_fires_once(pending, timer, earlier);
        let before = ticked_all(start, earlier);
        let fired = EventQueueView { actions: pending.push(timer.action), timers: Seq::empty() };
        if earlier.len() > 0 && timer.elapsed + total_time(earlier) >= timer.duration {
            lemma_tick_without_timers(fired, dt);
        } else {
            let current = if earlier.len() == 0 {
                timer
            } else {
                TimerView { elapsed: (timer.elapsed + total_time(earlier)) as u64, ..timer }
            };
            assert(before == (EventQueueView { actions: pending, timers: seq![current] }));
            lemma_tick_single_timer(pending, current, dt);
        }
    }
}

/// Picks the timers that are still running once `total` more
/// milliseconds have passed.
pub open spec fn outlasts(total: int) -> spec_fn(TimerView) -> bool {
    |t: TimerView| t.elapsed + total < t.duration
}

/// A timer after `total` more milliseconds.
pub open spec fn advanced_by(timer: TimerView, total: int) -> TimerView {
    TimerView {
        elapsed: if timer.elapsed + total > u64::MAX {
            u64::MAX
        } else {
            (timer.elapsed + total) as u64
        },
        ..timer
    }
}

/// The timers that are still running once `total` more milliseconds have
/// passed, each advanced by that time, in their order.
pub open spec fn survivors(timers: Seq<TimerView>, total: int) -> Seq<TimerView> {
    timers.filter(outlasts(total)).map_values(|t: TimerView| advanced_by(t, total))
}

/// Who survives one more timer: the survivors so far, and the timer too
/// if it outlasts the time.
pub proof fn lemma_survivors_push(timers: Seq<TimerView>, timer: TimerView, total: int)
    ensures
        survivors(timers.push(timer), total) == if timer.elapsed + total < timer.duration {
            survivors(timers, total).push(advanced_by(timer, total))
        } else {
            survivors(timers, total)
        },
{
    timers.lemma_filter_push(timer, outlasts(total));
    if timer.elapsed + total < timer.duration {
        assert(survivors(timers.push(timer), total) =~= survivors(timers, total).push(
            advanced_by(timer, total),
        ));
    }
}

/// After one tick the active timers are the survivors of its length, and
/// as many actions have been queued as timers have left.
pub proof fn lemma_tick_survivors(queue: EventQueueView, dt: u64)
    ensures
        queue.ticked(dt).timers == survivors(queue.timers, dt as int),
        queue.ticked(dt).actions.len() + queue.ticked(dt).timers.len() == queue.actions.len()
            + queue.timers.len(),
    decreases queue.timers.len(),
{
    lemma_filter_of_empty();
    let timers = queue.timers;
    if timers.len() == 0 {
        assert(advance_all(timers, dt) =~= Seq::empty());
        assert(survivors(timers, dt as int) =~= Seq::empty());
        assert(payloads(Seq::<TimerView>::empty()) =~= Seq::empty());
    } else {
        let rest = EventQueueView { timers: timers.drop_last(), ..queue };
        let last = timers.last();
        lemma_tick_survivors(rest, dt);
        assert(timers =~= rest.timers.push(last));
        let moved = advance_all(rest.timers, dt);
        assert(advance_all(timers, dt) =~= moved.push(last.advanced(dt)));
        moved.lemma_filter_push(last.advanced(dt), running_pred());
        moved.lemma_filter_push(last.advanced(dt), done_pred());
        lemma_survivors_push(rest.timers, last, dt as int);
        assert(last.advanced(dt) == advanced_by(last, dt as int));
        if last.advanced(dt).is_done() {
            assert(payloads(moved.filter(done_pred()).push(last.advanced(dt))).len() == payloads(
                moved.filter(done_pred()),
            ).len() + 1);
        }
    }
}

/// Surviving one span of time and then another is surviving their sum.
pub proof fn lemma_survivors_twice(timers: Seq<TimerView>, first: int, second: int)
    requires
        first >= 0,
        second >= 0,
    ensures
        survivors(survivors(timers, first), second) == survivors(timers, first + second),
    decreases timers.len(),
{
    lemma_filter_of_empty();
    if timers.len() == 0 {
        assert(survivors(timers, first) =~= Seq::empty());
        assert(survivors(timers, first + second) =~= Seq::empty());
        assert(survivors(Seq::empty(), second) =~= Seq::empty());
    } else {
        let rest = timers.drop_last();
        let last = timers.last();
        assert(timers =~= rest.push(last));
        lemma_survivors_twice(rest, first, second);
        lemma_survivors_push(rest, last, first);
        lemma_survivors_push(rest, last, first + second);
        if last.elapsed + first < last.duration {
            lemma_survivors_push(survivors(rest, first), advanced_by(last, first), second);
            assert(advanced_by(advanced_by(last, first), second) == advanced_by(
                last,
                first + second,
            ));
        }
    }
}

/// Every timer fires exactly once, and exactly when its time is up,
/// whatever else is in the queue. After a run of ticks, one at least, the
/// active timers are those whose time the ticks have not used up, each
/// with its elapsed time grown by the sum of the ticks, in their order.
/// Every other timer has left and has queued one action: the queue has
/// grown by as many actions as timers have left.
pub proof fn lemma_ticks_fire_each_timer_once(queue: EventQueueView, deltas: Seq<u64>)
    requires
        deltas.len() > 0,
    ensures
        ticked_all(queue, deltas).timers == survivors(queue.timers, total_time(deltas)),
        ticked_all(queue, deltas).actions.len() + ticked_all(queue, deltas).timers.len()
            == queue.actions.len() + queue.timers.len(),
        total_time(deltas) >= 0,
    decreases deltas.len(),
{
    let earlier = deltas.drop_last();
    let before = ticked_all(queue, earlier);
    lemma_tick_survivors(before, deltas.last());
    if earlier.len() > 0 {
        lemma_ticks_fire_each_timer_once(queue, earlier);
        lemma_survivors_twice(queue.timers, total_time(earlier), deltas.last() as int);
    } else {
        assert(total_time(earlier) == 0);
        assert(before == queue);
    }
}

/// A tick of a queue without timers changes nothing.
pub proof fn lemma_tick_without_timers(queue: EventQueueView, dt: u64)
    requires
        queue.timers.len() == 0,
    ensures
        queue.ticked(dt) == queue,
{
    lemma_filter_of_empty();
    let advanced = advance_all(queue.timers, dt);
    assert(advanced =~= Seq::empty());
    assert(payloads(Seq::empty()) =~= Seq::empty());
    assert(queue.actions + Seq::empty() =~= queue.actions);
    assert(queue.timers =~= Seq::empty());
}

/// One tick of a queue with a single timer: the timer either fires, once,
/// or stays with its elapsed time grown.
pub proof fn lemma_tick_single_timer(pending: Seq<ActionView>, timer: TimerView, dt: u64)
    ensures
        ({
            let start = EventQueueView { actions: pending, timers: seq![timer] };
            if timer.elapsed + dt >= timer.duration {
                start.ticked(dt) == (EventQueueView {
                    actions: pending.push(timer.action),
                    timers: Seq::empty(),
                })
            } else {
                start.ticked(dt) == (EventQueueView {
                    actions: pending,
                    timers: seq![TimerView { elapsed: (timer.elapsed + dt) as u64, ..timer }],
                })
            }
        }),
{
    lemma_filter_of_empty();
    let start = EventQueueView { actions: pending, timers: seq![timer] };
    let moved = timer.advanced(dt);
    let advanced = advance_all(start.timers, dt);
    assert(advanced =~= Seq::<TimerView>::empty().push(moved));
    Seq::<TimerView>::empty().lemma_filter_push(moved, done_pred());
    Seq::<TimerView>::empty().lemma_filter_push(moved, running_pred());
    if timer.elapsed + dt >= timer.duration {
        assert(moved.is_done());
        assert(payloads(Seq::<TimerView>::empty().push(moved)) =~= seq![timer.action]);
        assert(pending + seq![timer.action] =~= pending.push(timer.action));
    } else {
        assert(!moved.is_done());
        assert(payloads(Seq::<TimerView>::empty()) =~= Seq::empty());
        assert(pending + Seq::empty() =~= pending);
        assert(Seq::<TimerView>::empty().push(moved) =~= seq![
            TimerView { elapsed: (timer.elapsed + dt) as u64, ..timer },
        ]);
    }
}

/// A filter keeps a sequence whose timers it all picks.
pub proof fn lemma_filter_keeps_all(timers: Seq<TimerView>, pred: spec_fn(TimerView) -> bool)
    requires
        forall|i: int| 0 <= i < timers.len() ==> pred(#[trigger] timers[i]),
    ensures
        timers.filter(pred) == timers,
    decreases timers.len(),
{
    reveal(Seq::filter);
    if timers.len() > 0 {
        lemma_filter_keeps_all(timers.drop_last(), pred);
        assert(timers.drop_last().push(timers.last()) =~= timers);
    }
}

/// A filter empties a sequence of whose timers it picks none.
pub proof fn lemma_filter_keeps_none(timers: Seq<TimerView>, pred: spec_fn(TimerView) -> bool)
    requires
        forall|i: int| 0 <= i < timers.len() ==> !pred(#[trigger] timers[i]),
    ensures
        timers.filter(pred) == Seq::<TimerView>::empty(),
    decreases timers.len(),
{
    reveal(Seq::filter);
    if timers.len() > 0 {
        lemma_filter_keeps_none(timers.drop_last(), pred);
    }
}

/// Replacing by kind replaces exactly that kind: afterwards the timers of
/// the kind are those that were put in, and the timers of the other kinds
/// are those that were there, in their order.
pub proof fn lemma_emplaced(queue: EventQueueView, kind: TimerType, emplacement: Seq<TimerView>)
    requires
        forall|i: int| 0 <= i < emplacement.len() ==> (#[trigger] emplacement[i]).timer_type == kind,
    ensures
        queue.emplaced(kind, emplacement).timers_of(kind) == emplacement,
        queue.emplaced(kind, emplacement).timers.filter(other_kind_pred(kind))
            == queue.timers.filter(other_kind_pred(kind)),
        queue.emplaced(kind, emplacement).actions == queue.actions,
{
    let others = queue.timers.filter(other_kind_pred(kind));
    assert forall|i: int| 0 <= i < others.len() implies (#[trigger] others[i]).timer_type
        != kind by {
        queue.timers.lemma_filter_pred(other_kind_pred(kind), i);
    }
    Seq::filter_distributes_over_add(others, emplacement, kind_pred(kind));
    Seq::filter_distributes_over_add(others, emplacement, other_kind_pred(kind));
    lemma_filter_keeps_none(others, kind_pred(kind));
    lemma_filter_keeps_all(others, other_kind_pred(kind));
    lemma_filter_keeps_all(emplacement, kind_pred(kind));
    lemma_filter_keeps_none(emplacement, other_kind_pred(kind));
    assert(Seq::<TimerView>::empty() + emplacement =~= emplacement);
    assert(others + Seq::<TimerView>::empty() =~= others);
}

/// Every timer of a kind is of that kind.
pub proof fn lemma_timers_of_kind(queue: EventQueueView, kind: TimerType)
    ensures
        forall|i: int|
            0 <= i < queue.timers_of(kind).len() ==> (#[trigger] queue.timers_of(
                kind,
            )[i]).timer_type == kind,
{
    assert forall|i: int| 0 <= i < queue.timers_of(kind).len() implies (#[trigger] queue.timers_of(
        kind,
    )[i]).timer_type == kind by {
        queue.timers.lemma_filter_pred(kind_pred(kind), i);
    }
}

/// Rewinding keeps every timer's kind and sets every elapsed time to zero.
pub proof fn lemma_rewind_all(timers: Seq<TimerView>)
    ensures
        rewind_all(timers).len() == timers.len(),
        forall|i: int|
            0 <= i < timers.len() ==> (#[trigger] rewind_all(timers)[i]) == timers[i].rewound(),
{
}

/// Filtering the empty sequence of timers leaves it empty.
pub proof fn lemma_filter_of_empty()
    ensures
        forall|p: spec_fn(TimerView) -> bool| #[trigger] Seq::<TimerView>::empty().filter(p) == Seq::<TimerView>::empty(),
{
    reveal(Seq::filter);
}

} // verus!
