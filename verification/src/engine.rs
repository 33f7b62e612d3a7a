//! The animation engine: it stores one state per element, admits or refuses
//! requests by priority, starts animations when a request changes the
//! target, and on each tick advances, finishes, resumes or returns the
//! running animations.

use vstd::prelude::*;
use std::time::Duration;
use dashmap::DashMap;
use crate::policies::{DefaultInterruptionPolicy, DefaultPriorityPolicy, InterruptionPolicy, PriorityPolicy};
use crate::state::{next_version, AnimState, Progress, StyleKey};
use crate::tables::{
    active_entries, active_get, active_insert, active_is_empty, active_remove, active_table, new_active_table,
    held_get, held_insert, held_remove, held_table, interrupted_get, interrupted_insert, interrupted_remove, interrupted_table,
    new_held_table, new_interrupted_table, new_state_table, state_get, state_insert, state_table,
};
use crate::types::{AnimEvent, AnimPriority};

verus! {

/// `Duration::clone`: a duration is `Copy`, so its clone is the same value.
pub assume_specification[ <Duration as Clone>::clone ](d: &Duration) -> (r: Duration)
    ensures
        r == *d,
;

/// Identifies a timing curve registered by the caller.
#[derive(Debug, Clone, Copy, PartialEq, Eq, Structural, Hash)]
pub struct TransitionKey(pub u64);

/// Animation request submitted to the engine.
pub struct AnimRequest<F> {
    /// The element to animate.
    pub id: u64,
    /// The event that triggered the request.
    pub event: AnimEvent,
    /// Full duration of the animation.
    pub duration: Duration,
    /// Timing curve of the animation.
    pub transition: TransitionKey,
    /// Priority of the request.
    pub priority: AnimPriority,
    /// Computes the element's next state from its current one.
    pub modifier: F,
    /// Whether the reached style persists: the animation is not undone when
    /// it ends, and a persistent hover (the pointer entering) is held, to be
    /// resumed after any non-persistent animation that interrupts it, until a
    /// non-persistent hover (the pointer leaving) releases it. A persistent
    /// request that takes over a running persistent hover animation also
    /// keeps that hover aside: when the request's own animation ends, the
    /// interrupted hover is resumed once.
    pub persistent: bool,
    /// Style of the element when it has no state yet.
    pub initial_style: StyleKey,
}

/// A running animation.
#[derive(Debug, Clone)]
pub struct ActiveAnim {
    pub event: AnimEvent,
    /// The duration the animation was requested with.
    pub origin_duration: Duration,
    pub transition: TransitionKey,
    /// Version of the state this animation drives.
    pub version: usize,
    pub persistent: bool,
}

/// A hover kept to be resumed: the one an element holds while the pointer
/// stays on it, or a running persistent hover animation that a request
/// interrupted.
#[derive(Debug, Clone)]
pub struct PersistentContext {
    pub event: AnimEvent,
    /// The target style of the hover.
    pub style: StyleKey,
    pub duration: Duration,
    pub transition: TransitionKey,
    /// The priority the hover was requested with.
    pub priority: AnimPriority,
}

/// What a submitted request did.
#[derive(Debug, Clone, Copy, PartialEq, Eq, Structural)]
pub enum SubmitOutcome {
    /// Refused: the element is owned by a higher-priority animation.
    Rejected,
    /// Admitted, but the target style did not change: nothing runs.
    Unchanged,
    /// A new animation with this version started; `reversing` tells whether
    /// it runs back to where the previous animation started.
    Started { version: usize, reversing: bool },
}

/// An animation that a tick started, resuming a held hover or returning an
/// element to its origin.
#[derive(Debug, Clone)]
pub struct Restart {
    pub id: u64,
    pub version: usize,
    /// Whether it runs back to where the previous animation started.
    pub reversing: bool,
    /// The duration it was requested with.
    pub duration: Duration,
    pub transition: TransitionKey,
}

/// What one tick did.
#[derive(Debug, Clone)]
pub struct TickOutcome {
    /// True when some running animation had a state to advance.
    pub changed: bool,
    /// The animations started by the tick.
    pub restarts: Vec<Restart>,
}

/// The engine's contents: per element, its state, its running animation,
/// the hover it holds and the running hover animation a request interrupted.
pub struct EngineModel {
    pub states: Map<u64, AnimState>,
    pub active: Map<u64, ActiveAnim>,
    pub held: Map<u64, PersistentContext>,
    pub interrupted: Map<u64, PersistentContext>,
}

/// Whether a request is a hover that persists: the pointer entering.
pub open spec fn is_hover_enter(event: AnimEvent, persistent: bool) -> bool {
    event == AnimEvent::Hover && persistent
}

/// Whether a request is a hover that does not persist: the pointer leaving.
pub open spec fn is_hover_leave(event: AnimEvent, persistent: bool) -> bool {
    event == AnimEvent::Hover && !persistent
}

impl EngineModel {
    /// Every running animation, held hover and interrupted hover belongs to
    /// an element that has a state.
    pub open spec fn wf(self) -> bool {
        &&& forall|k: u64| #[trigger] self.active.contains_key(k) ==> self.states.contains_key(k)
        &&& forall|k: u64| #[trigger] self.held.contains_key(k) ==> self.states.contains_key(k)
        &&& forall|k: u64| #[trigger] self.interrupted.contains_key(k) ==> self.states.contains_key(k)
    }

    /// The state a request for `id` finds: the stored one, or a fresh state
    /// resting at `initial`.
    pub open spec fn entry_state(self, id: u64, initial: StyleKey) -> AnimState {
        if self.states.contains_key(id) {
            self.states[id]
        } else {
            AnimState::spec_new(initial)
        }
    }

    /// Whether a request with `priority` may take over element `id`.
    pub open spec fn admits(self, id: u64, priority: AnimPriority, initial: StyleKey) -> bool {
        priority.rank() >= self.entry_state(id, initial).priority.rank()
    }

    /// The state handed to the modifier of an admitted request.
    pub open spec fn admitted_state(self, id: u64, priority: AnimPriority, initial: StyleKey) -> AnimState {
        AnimState { priority, ..self.entry_state(id, initial) }
    }

    /// The held hovers after a request: the pointer leaving releases the
    /// hover of `id`, whether or not the request is admitted.
    pub open spec fn held_after_request(self, id: u64, event: AnimEvent, persistent: bool) -> Map<u64, PersistentContext> {
        if is_hover_leave(event, persistent) {
            self.held.remove(id)
        } else {
            self.held
        }
    }

    /// Whether element `id` runs a persistent hover animation, which an
    /// admitted request interrupts.
    pub open spec fn interrupts_hover(self, id: u64) -> bool {
        &&& self.active.contains_key(id)
        &&& self.active[id].persistent
        &&& self.active[id].event == AnimEvent::Hover
    }

    /// The running hover animation of `id` as kept aside when a request
    /// interrupts it: its target, and the priority the element had.
    pub open spec fn hover_context(self, id: u64, initial: StyleKey) -> PersistentContext {
        PersistentContext {
            event: self.active[id].event,
            style: self.entry_state(id, initial).to,
            duration: self.active[id].origin_duration,
            transition: self.active[id].transition,
            priority: self.entry_state(id, initial).priority,
        }
    }

    /// The interrupted hovers after a request: the pointer leaving drops the
    /// one of `id`; another admitted request keeps aside the persistent
    /// hover animation it interrupts.
    pub open spec fn interrupted_after_request(
        self,
        id: u64,
        event: AnimEvent,
        persistent: bool,
        priority: AnimPriority,
        initial: StyleKey,
    ) -> Map<u64, PersistentContext> {
        if is_hover_leave(event, persistent) {
            self.interrupted.remove(id)
        } else if self.admits(id, priority, initial) && self.interrupts_hover(id) {
            self.interrupted.insert(id, self.hover_context(id, initial))
        } else {
            self.interrupted
        }
    }

    /// The contents after a request for `id` has been admitted or refused.
    pub open spec fn after_admit(
        self,
        id: u64,
        event: AnimEvent,
        persistent: bool,
        priority: AnimPriority,
        initial: StyleKey,
    ) -> EngineModel {
        EngineModel {
            states: self.states.insert(
                id,
                if self.admits(id, priority, initial) {
                    self.admitted_state(id, priority, initial)
                } else {
                    self.entry_state(id, initial)
                },
            ),
            active: self.active,
            held: self.held_after_request(id, event, persistent),
            interrupted: self.interrupted_after_request(id, event, persistent, priority, initial),
        }
    }

    /// The hover that an admitted request holds: the pointer entering holds
    /// the target the modifier chose, with the request's priority.
    pub open spec fn entered_hover(
        duration: Duration,
        transition: TransitionKey,
        input: AnimState,
        next: AnimState,
    ) -> PersistentContext {
        PersistentContext {
            event: AnimEvent::Hover,
            style: next.to,
            duration,
            transition,
            priority: input.priority,
        }
    }

    /// The contents after the modifier of an admitted request turned `input`
    /// into `next`: an animation starts when the target changed; otherwise
    /// the element is released to the lowest priority. A hover entering is
    /// held from then on.
    pub open spec fn after_commit(
        self,
        id: u64,
        event: AnimEvent,
        duration: Duration,
        transition: TransitionKey,
        persistent: bool,
        input: AnimState,
        next: AnimState,
    ) -> EngineModel {
        let held = if is_hover_enter(event, persistent) {
            self.held.insert(id, Self::entered_hover(duration, transition, input, next))
        } else {
            self.held
        };
        if input.to != next.to {
            EngineModel {
                states: self.states.insert(id, next.spec_pre_animated()),
                active: self.active.insert(
                    id,
                    ActiveAnim {
                        event,
                        origin_duration: duration,
                        transition,
                        version: next_version(next.version),
                        persistent,
                    },
                ),
                held,
                interrupted: self.interrupted,
            }
        } else {
            EngineModel {
                states: self.states.insert(id, AnimState { priority: AnimPriority::Lowest, ..next }),
                active: self.active,
                held,
                interrupted: self.interrupted,
            }
        }
    }

    /// The outcome reported for the modifier result `next` of `input`.
    pub open spec fn commit_outcome(input: AnimState, next: AnimState) -> SubmitOutcome {
        if input.to != next.to {
            SubmitOutcome::Started { version: next_version(next.version), reversing: next.spec_is_reversing() }
        } else {
            SubmitOutcome::Unchanged
        }
    }

    /// How much of the duration the caller's timing curve says the running
    /// animation of `id` has covered, in the frames handed to a tick.
    pub open spec fn tick_progress(frames: Seq<(u64, Progress)>, id: u64) -> Option<Progress> {
        progress_of(frames, id)
    }

    /// Whether the running animation of `id` ends in this tick: its element
    /// has no state, a newer animation replaced it, or its curve is done.
    pub open spec fn tick_finishes(self, frames: Seq<(u64, Progress)>, id: u64) -> bool {
        !self.states.contains_key(id) || self.states[id].spec_step_finishes(
            self.active[id].version,
            progress_of(frames, id),
        )
    }

    /// The state of `id` after its animation advanced; a finished animation
    /// releases the element to the lowest priority.
    pub open spec fn tick_stepped(self, frames: Seq<(u64, Progress)>, id: u64) -> AnimState {
        let s = self.states[id].spec_animated(self.active[id].version, progress_of(frames, id));
        if self.tick_finishes(frames, id) {
            AnimState { priority: AnimPriority::Lowest, ..s }
        } else {
            s
        }
    }

    /// The hover a finished animation of `id` gives way to: the hover held,
    /// after a non-persistent animation; the hover it interrupted, after a
    /// persistent one.
    pub open spec fn tick_resumable(self, id: u64) -> Option<PersistentContext> {
        if !self.active[id].persistent {
            if self.held.contains_key(id) { Some(self.held[id]) } else { None }
        } else {
            if self.interrupted.contains_key(id) { Some(self.interrupted[id]) } else { None }
        }
    }

    /// The hover the tick resumes on `id`, when it resumes one.
    pub open spec fn tick_resumed(self, id: u64) -> PersistentContext {
        self.tick_resumable(id)->0
    }

    /// Whether the tick resumes a hover on `id`: the held one after a
    /// non-persistent animation ended, or the interrupted one after a
    /// persistent animation ended.
    pub open spec fn tick_resumes(self, frames: Seq<(u64, Progress)>, id: u64) -> bool {
        &&& self.states.contains_key(id)
        &&& self.tick_finishes(frames, id)
        &&& self.tick_resumable(id) is Some
    }

    /// Whether the tick sends `id` back to its origin: a non-persistent
    /// animation ended away from the origin and no hover is held.
    pub open spec fn tick_returns(self, frames: Seq<(u64, Progress)>, id: u64) -> bool {
        &&& self.states.contains_key(id)
        &&& self.tick_finishes(frames, id)
        &&& !self.active[id].persistent
        &&& !self.held.contains_key(id)
        &&& self.tick_stepped(frames, id).to != self.tick_stepped(frames, id).origin
    }

    /// The priority a hover resumes with: a hover comes back
    /// with at least medium priority.
    pub open spec fn resume_priority(ctx: PersistentContext) -> AnimPriority {
        if ctx.event == AnimEvent::Hover {
            ctx.priority.spec_max(AnimPriority::Medium)
        } else {
            ctx.priority
        }
    }

    /// The state of `id` with the target of the animation the tick starts.
    pub open spec fn tick_retargeted(self, frames: Seq<(u64, Progress)>, id: u64) -> AnimState {
        let s = self.tick_stepped(frames, id);
        if self.tick_resumes(frames, id) {
            AnimState {
                priority: Self::resume_priority(self.tick_resumed(id)),
                to: self.tick_resumed(id).style,
                ..s
            }
        } else {
            AnimState { to: s.origin, ..s }
        }
    }

    /// Whether the tick starts a new animation on `id`.
    pub open spec fn tick_restarts(self, frames: Seq<(u64, Progress)>, id: u64) -> bool {
        self.tick_resumes(frames, id) || self.tick_returns(frames, id)
    }

    /// The state of `id` after the tick.
    pub open spec fn tick_new_state(self, frames: Seq<(u64, Progress)>, id: u64) -> AnimState {
        if self.tick_restarts(frames, id) {
            self.tick_retargeted(frames, id).spec_pre_animated()
        } else {
            self.tick_stepped(frames, id)
        }
    }

    /// The animation the tick starts on `id`, if any.
    pub open spec fn tick_restart(self, frames: Seq<(u64, Progress)>, id: u64) -> Option<Restart> {
        let t = self.tick_retargeted(frames, id);
        if self.tick_resumes(frames, id) {
            Some(Restart {
                id,
                version: next_version(t.version),
                reversing: t.spec_is_reversing(),
                duration: self.tick_resumed(id).duration,
                transition: self.tick_resumed(id).transition,
            })
        } else if self.tick_returns(frames, id) {
            Some(Restart {
                id,
                version: next_version(t.version),
                reversing: t.spec_is_reversing(),
                duration: self.active[id].origin_duration,
                transition: self.active[id].transition,
            })
        } else {
            None
        }
    }

    /// The running animation of `id` after the tick, if any.
    pub open spec fn tick_new_active(self, frames: Seq<(u64, Progress)>, id: u64) -> Option<ActiveAnim> {
        let t = self.tick_retargeted(frames, id);
        if !self.tick_finishes(frames, id) {
            Some(self.active[id])
        } else if self.tick_resumes(frames, id) {
            Some(ActiveAnim {
                event: self.tick_resumed(id).event,
                origin_duration: self.tick_resumed(id).duration,
                transition: self.tick_resumed(id).transition,
                version: next_version(t.version),
                persistent: true,
            })
        } else if self.tick_returns(frames, id) {
            Some(ActiveAnim {
                event: AnimEvent::NoEvent,
                origin_duration: self.active[id].origin_duration,
                transition: self.active[id].transition,
                version: next_version(t.version),
                persistent: false,
            })
        } else {
            None
        }
    }

    /// The contents after the running animations of the elements in `done`
    /// have been advanced; other elements are untouched. Held hovers stay
    /// held; the interrupted hover of an element whose animation ended is
    /// dropped, resumed or not.
    pub open spec fn after_ticks(self, frames: Seq<(u64, Progress)>, done: Set<u64>) -> EngineModel {
        EngineModel {
            states: Map::new(
                |k: u64| self.states.contains_key(k),
                |k: u64|
                    if done.contains(k) && self.active.contains_key(k) {
                        self.tick_new_state(frames, k)
                    } else {
                        self.states[k]
                    },
            ),
            active: Map::new(
                |k: u64|
                    if done.contains(k) && self.active.contains_key(k) {
                        self.tick_new_active(frames, k) is Some
                    } else {
                        self.active.contains_key(k)
                    },
                |k: u64|
                    if done.contains(k) && self.active.contains_key(k) {
                        self.tick_new_active(frames, k)->0
                    } else {
                        self.active[k]
                    },
            ),
            held: self.held,
            interrupted: Map::new(
                |k: u64|
                    self.interrupted.contains_key(k) && !(done.contains(k) && self.active.contains_key(k)
                        && self.tick_finishes(frames, k)),
                |k: u64| self.interrupted[k],
            ),
        }
    }

    /// The contents after a tick has advanced every running animation.
    pub open spec fn after_tick(self, frames: Seq<(u64, Progress)>) -> EngineModel {
        self.after_ticks(frames, self.active.dom())
    }
}

/// The measurement listed first for `id` in `frames`, if any.
pub open spec fn progress_of(frames: Seq<(u64, Progress)>, id: u64) -> Option<Progress>
    decreases frames.len(),
{
    if frames.len() == 0 {
        None
    } else if frames[0].0 == id {
        Some(frames[0].1)
    } else {
        progress_of(frames.drop_first(), id)
    }
}

/// Find the measurement listed first for `id`.
fn progress_lookup(frames: &Vec<(u64, Progress)>, id: u64) -> (r: Option<Progress>)
    ensures
        r == progress_of(frames@, id),
{
    let mut i: usize = 0;
    proof {
        assert(frames@.skip(0) =~= frames@);
    }
    while i < frames.len()
        invariant
            0 <= i <= frames.len(),
            progress_of(frames@, id) == progress_of(frames@.skip(i as int), id),
        decreases frames.len() - i,
    {
        if frames[i].0 == id {
            return Some(frames[i].1);
        }
        proof {
            assert(frames@.skip(i as int).drop_first() =~= frames@.skip(i + 1));
        }
        i = i + 1;
    }
    proof {
        assert(frames@.skip(i as int) =~= Seq::<(u64, Progress)>::empty());
    }
    None
}

/// Advancing the animations of `done` leaves the records of any other
/// element `k` as they were, so advancing `k` afterwards gives the same
/// contents as advancing `done` and `k` together.
proof fn lemma_ticks_compose(m: EngineModel, frames: Seq<(u64, Progress)>, done: Set<u64>, k: u64)
    requires
        !done.contains(k),
        m.active.contains_key(k),
    ensures
        m.after_ticks(frames, done).after_ticks(frames, set![k]) == m.after_ticks(frames, done.insert(k)),
        m.after_ticks(frames, done).tick_restart(frames, k) == m.tick_restart(frames, k),
        m.after_ticks(frames, done).states.contains_key(k) == m.states.contains_key(k),
        m.after_ticks(frames, done).active.contains_key(k),
        m.after_ticks(frames, done).active[k] == m.active[k],
{
    let c = m.after_ticks(frames, done);
    assert(c.active.contains_key(k) && c.active[k] == m.active[k]);
    assert(c.states.contains_key(k) == m.states.contains_key(k));
    if m.states.contains_key(k) {
        assert(c.states[k] == m.states[k]);
    }
    assert(c.interrupted.contains_key(k) == m.interrupted.contains_key(k));
    if m.interrupted.contains_key(k) {
        assert(c.interrupted[k] == m.interrupted[k]);
    }
    assert(c.tick_resumable(k) == m.tick_resumable(k));
    assert(c.tick_finishes(frames, k) == m.tick_finishes(frames, k));
    if m.states.contains_key(k) {
        assert(c.tick_stepped(frames, k) == m.tick_stepped(frames, k));
    }
    assert(c.tick_resumes(frames, k) == m.tick_resumes(frames, k));
    assert(c.tick_returns(frames, k) == m.tick_returns(frames, k));
    assert(c.tick_restart(frames, k) == m.tick_restart(frames, k));
    assert(c.tick_new_active(frames, k) == m.tick_new_active(frames, k));
    if m.states.contains_key(k) {
        assert(c.tick_new_state(frames, k) == m.tick_new_state(frames, k));
    }
    let lhs = c.after_ticks(frames, set![k]);
    let rhs = m.after_ticks(frames, done.insert(k));
    assert(lhs.states =~= rhs.states);
    assert(lhs.active =~= rhs.active);
    assert(lhs.held =~= rhs.held);
    assert(lhs.interrupted =~= rhs.interrupted);
}

/// Advancing running animations keeps every running animation, held hover
/// and interrupted hover attached to an element with a state.
proof fn lemma_after_ticks_wf(m: EngineModel, frames: Seq<(u64, Progress)>, done: Set<u64>)
    requires
        m.wf(),
    ensures
        m.after_ticks(frames, done).wf(),
{
    let c = m.after_ticks(frames, done);
    assert forall|k: u64| #[trigger] c.active.contains_key(k) implies c.states.contains_key(k) by {
        if done.contains(k) && m.active.contains_key(k) {
            assert(m.tick_new_active(frames, k) is Some);
        }
    }
    assert forall|k: u64| #[trigger] c.held.contains_key(k) implies c.states.contains_key(k) by {
        assert(m.held.contains_key(k));
    }
    assert forall|k: u64| #[trigger] c.interrupted.contains_key(k) implies c.states.contains_key(k) by {
        assert(m.interrupted.contains_key(k));
    }
}

/// Minimal in-memory animation engine.
pub struct AnimEngine {
    states: DashMap<u64, AnimState>,
    active: DashMap<u64, ActiveAnim>,
    held: DashMap<u64, PersistentContext>,
    interrupted: DashMap<u64, PersistentContext>,
}

impl Default for AnimEngine {
    /// An engine with no element.
    fn default() -> (r: Self)
        ensures
            r@.states == Map::<u64, AnimState>::empty(),
            r@.active == Map::<u64, ActiveAnim>::empty(),
            r@.held == Map::<u64, PersistentContext>::empty(),
            r@.interrupted == Map::<u64, PersistentContext>::empty(),
    {
        AnimEngine::new()
    }
}

impl View for AnimEngine {
    type V = EngineModel;

    closed spec fn view(&self) -> EngineModel {
        EngineModel {
            states: state_table(self.states),
            active: active_table(self.active),
            held: held_table(self.held),
            interrupted: interrupted_table(self.interrupted),
        }
    }
}

impl AnimEngine {
    /// An engine with no element.
    pub fn new() -> (r: Self)
        ensures
            r@.states == Map::<u64, AnimState>::empty(),
            r@.active == Map::<u64, ActiveAnim>::empty(),
            r@.held == Map::<u64, PersistentContext>::empty(),
            r@.interrupted == Map::<u64, PersistentContext>::empty(),
            r@.wf(),
    {
        AnimEngine {
            states: new_state_table(),
            active: new_active_table(),
            held: new_held_table(),
            interrupted: new_interrupted_table(),
        }
    }

    /// First half of a submission: find or create the element's state and
    /// decide whether the request may take it over. A request of the pointer
    /// leaving releases the hover the element holds and drops an interrupted
    /// one, admitted or not. When another request is admitted, a persistent
    /// hover animation it interrupts is kept aside, the element takes the
    /// request's priority, and the state to hand to the modifier is
    /// returned.
    pub fn claim(
        &mut self,
        id: u64,
        event: &AnimEvent,
        persistent: bool,
        priority: AnimPriority,
        initial_style: StyleKey,
    ) -> (r: Option<AnimState>)
        ensures
            final(self)@ == old(self)@.after_admit(id, *event, persistent, priority, initial_style),
            r == (if old(self)@.admits(id, priority, initial_style) {
                Some(old(self)@.admitted_state(id, priority, initial_style))
            } else {
                None
            }),
            old(self)@.wf() ==> final(self)@.wf(),
    {
        let leaving = !persistent && matches!(event, AnimEvent::Hover);
        if leaving {
            held_remove(&mut self.held, id);
            interrupted_remove(&mut self.interrupted, id);
        }
        let mut state = match state_get(&self.states, id) {
            Some(s) => s,
            None => AnimState::new(initial_style),
        };
        state_insert(&mut self.states, id, state);
        let priority_policy = DefaultPriorityPolicy;
        if !priority_policy.should_override(state.priority, priority) {
            proof {
                assert(self@.held =~= old(self)@.after_admit(id, *event, persistent, priority, initial_style).held);
                assert(self@.interrupted =~= old(self)@.after_admit(
                    id,
                    *event,
                    persistent,
                    priority,
                    initial_style,
                ).interrupted);
            }
            return None;
        }
        if let Some(active) = active_get(&self.active, id) {
            let interruption_policy = DefaultInterruptionPolicy;
            if !interruption_policy.can_interrupt(&active.event, event) {
                return None;
            }
            if !leaving && active.persistent && matches!(active.event, AnimEvent::Hover) {
                interrupted_insert(
                    &mut self.interrupted,
                    id,
                    PersistentContext {
                        event: active.event,
                        style: state.to,
                        duration: active.origin_duration,
                        transition: active.transition,
                        priority: state.priority,
                    },
                );
            }
        }
        state.priority = priority;
        state_insert(&mut self.states, id, state);
        proof {
            assert(self@.states =~= old(self)@.after_admit(id, *event, persistent, priority, initial_style).states);
            assert(self@.held =~= old(self)@.after_admit(id, *event, persistent, priority, initial_style).held);
            assert(self@.interrupted =~= old(self)@.after_admit(
                id,
                *event,
                persistent,
                priority,
                initial_style,
            ).interrupted);
        }
        Some(state)
    }

    /// Second half of a submission: store the modifier's result `next` for
    /// the state `input` it was given. When the target changed, a new
    /// animation is prepared and registered as running; otherwise the element
    /// is released to the lowest priority. A hover entering is held, with
    /// the target the modifier chose.
    pub fn commit(
        &mut self,
        id: u64,
        event: AnimEvent,
        duration: Duration,
        transition: TransitionKey,
        persistent: bool,
        input: &AnimState,
        next: AnimState,
    ) -> (r: SubmitOutcome)
        ensures
            final(self)@ == old(self)@.after_commit(id, event, duration, transition, persistent, *input, next),
            r == EngineModel::commit_outcome(*input, next),
            old(self)@.wf() && old(self)@.states.contains_key(id) ==> final(self)@.wf(),
    {
        if persistent && matches!(event, AnimEvent::Hover) {
            held_insert(
                &mut self.held,
                id,
                PersistentContext {
                    event: AnimEvent::Hover,
                    style: next.to,
                    duration,
                    transition,
                    priority: input.priority,
                },
            );
        }
        let mut state = next;
        let r = if *input != state {
            let (version, reversing) = state.pre_animated();
            state_insert(&mut self.states, id, state);
            active_insert(
                &mut self.active,
                id,
                ActiveAnim { event, origin_duration: duration, transition, version, persistent },
            );
            SubmitOutcome::Started { version, reversing }
        } else {
            state.priority = AnimPriority::Lowest;
            state_insert(&mut self.states, id, state);
            SubmitOutcome::Unchanged
        };
        proof {
            if old(self)@.wf() && old(self)@.states.contains_key(id) {
                assert forall|k: u64| #[trigger] self@.active.contains_key(k) implies self@.states.contains_key(k) by {
                    if k != id {
                        assert(old(self)@.active.contains_key(k));
                    }
                }
                assert forall|k: u64| #[trigger] self@.held.contains_key(k) implies self@.states.contains_key(k) by {
                    if k != id {
                        assert(old(self)@.held.contains_key(k));
                    }
                }
                assert forall|k: u64| #[trigger] self@.interrupted.contains_key(k) implies self@.states.contains_key(k) by {
                    assert(old(self)@.interrupted.contains_key(k));
                }
            }
        }
        r
    }

    /// Submit a new animation request.
    ///
    /// The request is refused when the element is owned by a higher-priority
    /// animation. Otherwise the modifier turns the element's state into its
    /// next state; if that changes the target style, the animation is
    /// registered as running.
    pub fn submit<F: FnOnce(AnimState) -> AnimState>(&mut self, request: AnimRequest<F>) -> (r: SubmitOutcome)
        requires
            forall|s: AnimState| request.modifier.requires((s,)),
        ensures
            ({
                let m = old(self)@;
                let id = request.id;
                let input = m.admitted_state(id, request.priority, request.initial_style);
                let claimed = m.after_admit(
                    id,
                    request.event,
                    request.persistent,
                    request.priority,
                    request.initial_style,
                );
                if !m.admits(id, request.priority, request.initial_style) {
                    final(self)@ == claimed && r == SubmitOutcome::Rejected
                } else {
                    exists|next: AnimState|
                        #[trigger] request.modifier.ensures((input,), next) && final(self)@ == claimed.after_commit(
                            id,
                            request.event,
                            request.duration,
                            request.transition,
                            request.persistent,
                            input,
                            next,
                        ) && r == EngineModel::commit_outcome(input, next)
                }
            }),
            old(self)@.wf() ==> final(self)@.wf(),
    {
        let AnimRequest { id, event, duration, transition, priority, modifier, persistent, initial_style } = request;
        match self.claim(id, &event, persistent, priority, initial_style) {
            None => SubmitOutcome::Rejected,
            Some(input) => {
                let next = modifier(input);
                self.commit(id, event, duration, transition, persistent, &input, next)
            },
        }
    }

    /// Advance the running animation of `id`, recorded as `entry`, by one
    /// frame, and settle what follows when it ends: the hover it interrupted
    /// is dropped; after a non-persistent animation the hover the element
    /// holds is resumed, or else the element is sent back to the origin;
    /// after a persistent one the hover it interrupted, if any, is resumed.
    /// Returns whether the element had a state and the animation started,
    /// if any.
    fn advance(&mut self, id: u64, entry: &ActiveAnim, frames: &Vec<(u64, Progress)>) -> (r: (bool, Option<Restart>))
        requires
            old(self)@.active.contains_key(id),
            *entry == old(self)@.active[id],
        ensures
            final(self)@ == old(self)@.after_ticks(frames@, set![id]),
            r.0 == old(self)@.states.contains_key(id),
            r.1 == old(self)@.tick_restart(frames@, id),
    {
        let ghost m = self@;
        let progress = progress_lookup(frames, id);
        let mut finished = false;
        let mut has_state = false;
        match state_get(&self.states, id) {
            Some(mut state) => {
                has_state = true;
                if state.animated(entry.version, progress) {
                    state.priority = AnimPriority::Lowest;
                    finished = true;
                }
                state_insert(&mut self.states, id, state);
            },
            None => {
                finished = true;
            },
        }
        let mut restart: Option<Restart> = None;
        if finished {
            let removed = active_remove(&mut self.active, id);
            let interrupted = interrupted_remove(&mut self.interrupted, id);
            if let Some(active) = removed {
                if let Some(mut state) = state_get(&self.states, id) {
                    let resumable = if active.persistent {
                        interrupted
                    } else {
                        held_get(&self.held, id)
                    };
                    match resumable {
                        Some(ctx) => {
                            let restored_priority = if matches!(ctx.event, AnimEvent::Hover) {
                                ctx.priority.max(AnimPriority::Medium)
                            } else {
                                ctx.priority
                            };
                            state.priority = restored_priority;
                            state.to = ctx.style;
                            let (version, reversing) = state.pre_animated();
                            state_insert(&mut self.states, id, state);
                            let duration = ctx.duration;
                            let transition = ctx.transition;
                            active_insert(
                                &mut self.active,
                                id,
                                ActiveAnim { event: ctx.event, origin_duration: duration, transition, version, persistent: true },
                            );
                            restart = Some(Restart { id, version, reversing, duration, transition });
                        },
                        None => {
                            if !active.persistent && state.to != state.origin {
                                state.to = state.origin;
                                let (version, reversing) = state.pre_animated();
                                state_insert(&mut self.states, id, state);
                                let duration = active.origin_duration;
                                let transition = active.transition;
                                active_insert(
                                    &mut self.active,
                                    id,
                                    ActiveAnim {
                                        event: AnimEvent::NoEvent,
                                        origin_duration: duration,
                                        transition,
                                        version,
                                        persistent: false,
                                    },
                                );
                                restart = Some(Restart { id, version, reversing, duration, transition });
                            }
                        },
                    }
                }
            }
        }
        proof {
            assert(self@.states =~= m.after_ticks(frames@, set![id]).states);
            assert(self@.active =~= m.after_ticks(frames@, set![id]).active);
            assert(self@.held =~= m.after_ticks(frames@, set![id]).held);
            assert(self@.interrupted =~= m.after_ticks(frames@, set![id]).interrupted);
        }
        (has_state, restart)
    }

    /// Advance all active animations by one tick.
    ///
    /// `frames` holds, per element, how far its timing curve has come; an
    /// element not listed keeps its current style. Each running animation is
    /// advanced; a finished one releases its element to the lowest priority
    /// and is removed, together with the hover it interrupted; when it was
    /// not persistent, the hover the element holds is resumed, or else the
    /// element is sent back to the origin; when it was persistent, the hover
    /// it interrupted, if any, is resumed.
    pub fn tick(&mut self, frames: &Vec<(u64, Progress)>) -> (r: TickOutcome)
        ensures
            final(self)@ == old(self)@.after_tick(frames@),
            r.changed == exists|k: u64| #[trigger] old(self)@.active.contains_key(k) && old(self)@.states.contains_key(k),
            forall|q: int|
                0 <= q < r.restarts@.len() ==> old(self)@.active.contains_key(#[trigger] r.restarts@[q].id)
                    && old(self)@.tick_restart(frames@, r.restarts@[q].id) == Some(r.restarts@[q]),
            forall|k: u64|
                old(self)@.active.contains_key(k) && #[trigger] old(self)@.tick_restart(frames@, k) is Some ==> exists|q: int|
                    0 <= q < r.restarts@.len() && r.restarts@[q].id == k,
            forall|q1: int, q2: int|
                0 <= q1 < q2 < r.restarts@.len() ==> r.restarts@[q1].id != r.restarts@[q2].id,
            old(self)@.wf() ==> final(self)@.wf(),
    {
        let ghost m = self@;
        let entries = active_entries(&self.active);
        let mut changed = false;
        let mut restarts: Vec<Restart> = Vec::new();
        let mut i: usize = 0;
        proof {
            assert(m.after_ticks(frames@, Set::<u64>::empty()).states =~= m.states);
            assert(m.after_ticks(frames@, Set::<u64>::empty()).active =~= m.active);
            assert(m.after_ticks(frames@, Set::<u64>::empty()).held =~= m.held);
            assert(m.after_ticks(frames@, Set::<u64>::empty()).interrupted =~= m.interrupted);
            assert(Set::new(|k: u64| exists|j: int| 0 <= j < 0 && entries@[j].0 == k) =~= Set::<u64>::empty());
        }
        while i < entries.len()
            invariant
                0 <= i <= entries.len(),
                forall|a: int, b: int| 0 <= a < b < entries@.len() ==> entries@[a].0 != entries@[b].0,
                forall|a: int|
                    0 <= a < entries@.len() ==> m.active.contains_key(#[trigger] entries@[a].0)
                        && m.active[entries@[a].0] == entries@[a].1,
                self@ == m.after_ticks(frames@, Set::new(|k: u64| exists|j: int| 0 <= j < i && entries@[j].0 == k)),
                changed == exists|j: int| 0 <= j < i && m.states.contains_key(#[trigger] entries@[j].0),
                forall|q: int|
                    0 <= q < restarts@.len() ==> exists|j: int| 0 <= j < i && entries@[j].0 == #[trigger] restarts@[q].id,
                forall|q: int|
                    0 <= q < restarts@.len() ==> m.tick_restart(frames@, #[trigger] restarts@[q].id) == Some(restarts@[q]),
                forall|j: int|
                    0 <= j < i && (#[trigger] m.tick_restart(frames@, entries@[j].0)) is Some ==> exists|q: int|
                        0 <= q < restarts@.len() && restarts@[q].id == entries@[j].0,
                forall|q1: int, q2: int|
                    0 <= q1 < q2 < restarts@.len() ==> restarts@[q1].id != restarts@[q2].id,
            decreases entries.len() - i,
        {
            let id = entries[i].0;
            let ghost done = Set::new(|k: u64| exists|j: int| 0 <= j < i && entries@[j].0 == k);
            proof {
                assert(!done.contains(id));
                lemma_ticks_compose(m, frames@, done, id);
            }
            let (has_state, restart) = self.advance(id, &entries[i].1, frames);
            if has_state {
                changed = true;
            }
            let ghost old_restarts = restarts@;
            match restart {
                Some(rs) => {
                    restarts.push(rs);
                },
                None => {},
            }
            proof {
                let done2 = Set::new(|k: u64| exists|j: int| 0 <= j < i + 1 && entries@[j].0 == k);
                assert(done2 =~= done.insert(id));
                assert forall|q: int| 0 <= q < restarts@.len() implies exists|j: int|
                    0 <= j < i + 1 && entries@[j].0 == #[trigger] restarts@[q].id by {
                    if q < old_restarts.len() {
                        assert(old_restarts[q] == restarts@[q]);
                    } else {
                        assert(entries@[i as int].0 == restarts@[q].id);
                    }
                }
                assert forall|q1: int, q2: int| 0 <= q1 < q2 < restarts@.len() implies restarts@[q1].id != restarts@[q2].id by {
                    if q2 >= old_restarts.len() {
                        assert(old_restarts[q1] == restarts@[q1]);
                        let j = choose|j: int| 0 <= j < i && entries@[j].0 == old_restarts[q1].id;
                    }
                }
                assert forall|j: int|
                    0 <= j < i + 1 && (#[trigger] m.tick_restart(frames@, entries@[j].0)) is Some implies exists|q: int|
                        0 <= q < restarts@.len() && restarts@[q].id == entries@[j].0 by {
                    if j < i {
                        let q = choose|q: int| 0 <= q < old_restarts.len() && old_restarts[q].id == entries@[j].0;
                        assert(restarts@[q] == old_restarts[q]);
                    } else {
                        assert(restarts@[old_restarts.len() as int].id == entries@[j].0);
                    }
                }
            }
            i = i + 1;
        }
        proof {
            let done = Set::new(|k: u64| exists|j: int| 0 <= j < i && entries@[j].0 == k);
            assert(done =~= m.active.dom());
            if m.wf() {
                lemma_after_ticks_wf(m, frames@, done);
            }
            assert forall|k: u64| m.active.contains_key(k) && #[trigger] m.tick_restart(frames@, k) is Some implies exists|q: int|
                0 <= q < restarts@.len() && restarts@[q].id == k by {
                let j = choose|j: int| 0 <= j < entries@.len() && entries@[j].0 == k;
                assert(m.tick_restart(frames@, entries@[j].0) is Some);
            }
            if exists|k: u64| #[trigger] m.active.contains_key(k) && m.states.contains_key(k) {
                let k = choose|k: u64| #[trigger] m.active.contains_key(k) && m.states.contains_key(k);
                let j = choose|j: int| 0 <= j < entries@.len() && entries@[j].0 == k;
                assert(m.states.contains_key(entries@[j].0));
            }
        }
        TickOutcome { changed, restarts }
    }

    /// Returns true when any animations are currently active.
    pub fn has_active_animations(&self) -> (r: bool)
        ensures
            r == (self@.active != Map::<u64, ActiveAnim>::empty()),
    {
        !active_is_empty(&self.active)
    }

    /// The animation running on an element, if any.
    pub fn animation(&self, id: u64) -> (r: Option<ActiveAnim>)
        ensures
            r == (if self@.active.contains_key(id) { Some(self@.active[id]) } else { None }),
    {
        active_get(&self.active, id)
    }

    /// The hover an element holds, if any.
    pub fn held_hover(&self, id: u64) -> (r: Option<PersistentContext>)
        ensures
            r == (if self@.held.contains_key(id) { Some(self@.held[id]) } else { None }),
    {
        held_get(&self.held, id)
    }

    /// The running hover animation a request interrupted on an element, kept
    /// to be resumed when that request's persistent animation ends, if any.
    pub fn interrupted_hover(&self, id: u64) -> (r: Option<PersistentContext>)
        ensures
            r == (if self@.interrupted.contains_key(id) { Some(self@.interrupted[id]) } else { None }),
    {
        interrupted_get(&self.interrupted, id)
    }

    /// Get the current state for an element, if present.
    pub fn state(&self, id: u64) -> (r: Option<AnimState>)
        ensures
            r == (if self@.states.contains_key(id) { Some(self@.states[id]) } else { None }),
    {
        state_get(&self.states, id)
    }
}

} // verus!
