//! Properties of the engine that span several operations.

use vstd::prelude::*;
use std::time::Duration;
use crate::engine::{is_hover_enter, is_hover_leave, EngineModel, TransitionKey};
use crate::state::{AnimState, Progress, StyleKey};
use crate::types::{AnimEvent, AnimPriority};

verus! {

/// A hover the element holds is resumed once a non-persistent animation that
/// took the element over (for instance a click) has ended, whether the hover
/// animation was still running or had finished when it was interrupted: the
/// element heads again for the hover's target, with at least medium
/// priority, driven by a persistent hover animation whose version is the
/// element's current one, and keeps holding the hover.
pub proof fn law_held_hover_resumes(
    m: EngineModel,
    id: u64,
    event: AnimEvent,
    priority: AnimPriority,
    initial: StyleKey,
    duration: Duration,
    transition: TransitionKey,
    next: AnimState,
    frames: Seq<(u64, Progress)>,
)
    requires
        m.held.contains_key(id),
        event != AnimEvent::Hover,
        m.admits(id, priority, initial),
        next.to != m.admitted_state(id, priority, initial).to,
        EngineModel::tick_progress(frames, id) == Some(Progress::Done),
    ensures
        ({
            let input = m.admitted_state(id, priority, initial);
            let c = m.after_admit(id, event, false, priority, initial).after_commit(
                id,
                event,
                duration,
                transition,
                false,
                input,
                next,
            );
            let t = c.after_tick(frames);
            &&& t.states[id].to == m.held[id].style
            &&& t.states[id].priority == EngineModel::resume_priority(m.held[id])
            &&& t.active.contains_key(id)
            &&& t.active[id].event == m.held[id].event
            &&& t.active[id].persistent
            &&& t.active[id].version == t.states[id].version
            &&& t.held == c.held
            &&& c.held == m.held
        }),
{
    let input = m.admitted_state(id, priority, initial);
    let c = m.after_admit(id, event, false, priority, initial).after_commit(id, event, duration, transition, false, input, next);
    assert(c.held =~= m.held);
    assert(c.states.contains_key(id) && c.active.contains_key(id) && c.held.contains_key(id));
    assert(c.tick_finishes(frames, id));
    assert(c.tick_resumes(frames, id));
    assert(c.active.dom().contains(id));
}

/// Hover, click, hover restored: the pointer enters (a persistent hover whose
/// modifier picks a new target) on an element that runs no hover animation
/// and keeps none aside, the hover animation finishes, a click takes the
/// element over with a new target of its own, and when the click animation
/// ends the element heads back for the hover target.
pub proof fn law_hover_click_hover(
    m: EngineModel,
    id: u64,
    initial: StyleKey,
    hover_priority: AnimPriority,
    hover_duration: Duration,
    hover_transition: TransitionKey,
    hover_next: AnimState,
    click_priority: AnimPriority,
    click_duration: Duration,
    click_transition: TransitionKey,
    click_next: AnimState,
    frames: Seq<(u64, Progress)>,
)
    requires
        !m.interrupts_hover(id),
        !m.interrupted.contains_key(id),
        m.admits(id, hover_priority, initial),
        hover_next.to != m.admitted_state(id, hover_priority, initial).to,
        EngineModel::tick_progress(frames, id) == Some(Progress::Done),
    ensures
        ({
            let hovered = m.after_admit(id, AnimEvent::Hover, true, hover_priority, initial).after_commit(
                id,
                AnimEvent::Hover,
                hover_duration,
                hover_transition,
                true,
                m.admitted_state(id, hover_priority, initial),
                hover_next,
            );
            let rested = hovered.after_tick(frames);
            let click_input = rested.admitted_state(id, click_priority, initial);
            let clicked = rested.after_admit(id, AnimEvent::Click, false, click_priority, initial).after_commit(
                id,
                AnimEvent::Click,
                click_duration,
                click_transition,
                false,
                click_input,
                click_next,
            );
            let t = clicked.after_tick(frames);
            &&& !rested.active.contains_key(id)
            &&& rested.states[id].cur == hover_next.to
            &&& rested.admits(id, click_priority, initial)
            &&& (click_next.to != click_input.to ==> {
                &&& t.states[id].to == hover_next.to
                &&& t.states[id].priority == hover_priority.spec_max(AnimPriority::Medium)
                &&& t.active.contains_key(id)
                &&& t.active[id].event == AnimEvent::Hover
                &&& t.active[id].persistent
            })
        }),
{
    let input = m.admitted_state(id, hover_priority, initial);
    let hovered = m.after_admit(id, AnimEvent::Hover, true, hover_priority, initial).after_commit(
        id,
        AnimEvent::Hover,
        hover_duration,
        hover_transition,
        true,
        input,
        hover_next,
    );
    assert(hovered.states.contains_key(id) && hovered.active.contains_key(id) && hovered.held.contains_key(id));
    assert(!hovered.interrupted.contains_key(id));
    assert(hovered.tick_finishes(frames, id));
    assert(!hovered.tick_restarts(frames, id));
    assert(hovered.active.dom().contains(id));
    let rested = hovered.after_tick(frames);
    assert(rested.held == hovered.held);
    assert(rested.held[id].style == hover_next.to);
    if click_next.to != rested.admitted_state(id, click_priority, initial).to {
        law_held_hover_resumes(
            rested,
            id,
            AnimEvent::Click,
            click_priority,
            initial,
            click_duration,
            click_transition,
            click_next,
            frames,
        );
    }
}

/// The pointer leaving releases the hover the element holds and drops an
/// interrupted one, whether or not the leave request is admitted. An admitted leave that changes the target
/// is not resumed into the hover when it ends: the element shows the leave
/// target and, when that is its origin, rests there with nothing running.
pub proof fn law_hover_leave_releases(
    m: EngineModel,
    id: u64,
    priority: AnimPriority,
    initial: StyleKey,
    duration: Duration,
    transition: TransitionKey,
    next: AnimState,
    frames: Seq<(u64, Progress)>,
)
    ensures
        !m.after_admit(id, AnimEvent::Hover, false, priority, initial).held.contains_key(id),
        !m.after_admit(id, AnimEvent::Hover, false, priority, initial).interrupted.contains_key(id),
        ({
            let input = m.admitted_state(id, priority, initial);
            let c = m.after_admit(id, AnimEvent::Hover, false, priority, initial).after_commit(
                id,
                AnimEvent::Hover,
                duration,
                transition,
                false,
                input,
                next,
            );
            let t = c.after_tick(frames);
            (m.admits(id, priority, initial) && next.to != input.to && EngineModel::tick_progress(frames, id)
                == Some(Progress::Done)) ==> {
                &&& !c.held.contains_key(id)
                &&& !t.held.contains_key(id)
                &&& t.states[id].cur == next.to
                &&& (next.to == next.origin ==> !t.active.contains_key(id) && t.states[id].to == next.origin)
            }
        }),
{
    let input = m.admitted_state(id, priority, initial);
    let c = m.after_admit(id, AnimEvent::Hover, false, priority, initial).after_commit(
        id,
        AnimEvent::Hover,
        duration,
        transition,
        false,
        input,
        next,
    );
    if m.admits(id, priority, initial) && next.to != input.to && EngineModel::tick_progress(frames, id) == Some(
        Progress::Done,
    ) {
        assert(c.states.contains_key(id) && c.active.contains_key(id) && !c.held.contains_key(id));
        assert(c.tick_finishes(frames, id));
        assert(!c.tick_resumes(frames, id));
        assert(c.active.dom().contains(id));
    }
}

/// A non-persistent animation that ends away from the element's origin,
/// while the element holds no hover, is followed by an animation back to the
/// origin, with no event tag and the version of the element's state.
pub proof fn law_transient_animation_returns_to_origin(
    m: EngineModel,
    id: u64,
    priority: AnimPriority,
    initial: StyleKey,
    event: AnimEvent,
    duration: Duration,
    transition: TransitionKey,
    next: AnimState,
    frames: Seq<(u64, Progress)>,
)
    requires
        m.admits(id, priority, initial),
        !m.held.contains_key(id),
        next.to != m.admitted_state(id, priority, initial).to,
        next.to != next.origin,
        EngineModel::tick_progress(frames, id) == Some(Progress::Done),
    ensures
        ({
            let input = m.admitted_state(id, priority, initial);
            let c = m.after_admit(id, event, false, priority, initial).after_commit(
                id,
                event,
                duration,
                transition,
                false,
                input,
                next,
            );
            let t = c.after_tick(frames);
            &&& t.states[id].to == next.origin
            &&& t.states[id].origin == next.origin
            &&& t.states[id].from == next.to
            &&& t.states[id].priority == AnimPriority::Lowest
            &&& t.active.contains_key(id)
            &&& t.active[id].event == AnimEvent::NoEvent
            &&& !t.active[id].persistent
            &&& t.active[id].version == t.states[id].version
            &&& c.tick_restart(frames, id) is Some
        }),
{
    let input = m.admitted_state(id, priority, initial);
    let c = m.after_admit(id, event, false, priority, initial).after_commit(id, event, duration, transition, false, input, next);
    assert(c.states.contains_key(id) && c.active.contains_key(id) && !c.held.contains_key(id));
    assert(c.tick_finishes(frames, id));
    assert(c.tick_returns(frames, id));
    assert(c.active.dom().contains(id));
}

/// A persistent request that takes over a running persistent hover
/// animation (the pointer entering again with a new target) keeps that hover
/// aside; when the new animation ends, the element heads back once for the
/// interrupted hover's target, with at least medium priority, and nothing
/// is kept aside any more.
pub proof fn law_interrupted_hover_resumes_once(
    m: EngineModel,
    id: u64,
    event: AnimEvent,
    priority: AnimPriority,
    initial: StyleKey,
    duration: Duration,
    transition: TransitionKey,
    next: AnimState,
    frames: Seq<(u64, Progress)>,
)
    requires
        m.wf(),
        m.interrupts_hover(id),
        m.admits(id, priority, initial),
        next.to != m.admitted_state(id, priority, initial).to,
        EngineModel::tick_progress(frames, id) == Some(Progress::Done),
    ensures
        ({
            let input = m.admitted_state(id, priority, initial);
            let c = m.after_admit(id, event, true, priority, initial).after_commit(
                id,
                event,
                duration,
                transition,
                true,
                input,
                next,
            );
            let t = c.after_tick(frames);
            &&& t.states[id].to == m.states[id].to
            &&& t.states[id].priority == m.states[id].priority.spec_max(AnimPriority::Medium)
            &&& t.active.contains_key(id)
            &&& t.active[id].event == AnimEvent::Hover
            &&& t.active[id].persistent
            &&& t.active[id].version == t.states[id].version
            &&& !t.interrupted.contains_key(id)
        }),
{
    let input = m.admitted_state(id, priority, initial);
    let c = m.after_admit(id, event, true, priority, initial).after_commit(id, event, duration, transition, true, input, next);
    assert(c.states.contains_key(id) && c.active.contains_key(id) && c.interrupted.contains_key(id));
    assert(c.active[id].persistent);
    assert(c.tick_finishes(frames, id));
    assert(c.tick_resumes(frames, id));
    assert(c.active.dom().contains(id));
}

/// When the animation of an element ends and nothing follows it, the element
/// is no longer animated and rests with the lowest priority, so that the next
/// request for it is admitted whatever its priority. When the curve was done,
/// the element shows its target style.
pub proof fn law_finished_element_is_released(
    m: EngineModel,
    frames: Seq<(u64, Progress)>,
    id: u64,
    priority: AnimPriority,
    initial: StyleKey,
)
    requires
        m.states.contains_key(id),
        m.active.contains_key(id),
        m.tick_finishes(frames, id),
        !m.tick_restarts(frames, id),
    ensures
        ({
            let t = m.after_tick(frames);
            &&& !t.active.contains_key(id)
            &&& t.states[id].priority == AnimPriority::Lowest
            &&& t.admits(id, priority, initial)
            &&& (m.active[id].version == m.states[id].version && EngineModel::tick_progress(frames, id) == Some(
                Progress::Done,
            ) ==> t.states[id].cur == t.states[id].to)
        }),
{
    assert(m.active.dom().contains(id));
}

/// A request refused for priority, other than the pointer leaving, leaves
/// an element that already has a state, its running animation and the hover
/// it holds exactly as they were.
pub proof fn law_refused_request_changes_nothing(
    m: EngineModel,
    id: u64,
    event: AnimEvent,
    persistent: bool,
    priority: AnimPriority,
    initial: StyleKey,
)
    requires
        m.states.contains_key(id),
        !m.admits(id, priority, initial),
        !is_hover_leave(event, persistent),
    ensures
        m.after_admit(id, event, persistent, priority, initial) == m,
{
    assert(m.after_admit(id, event, persistent, priority, initial).states =~= m.states);
}

/// An element at rest (lowest priority) admits a request of any priority,
/// and a realtime request is admitted whatever animation owns the element.
pub proof fn law_priority_takeover(m: EngineModel, id: u64, priority: AnimPriority, initial: StyleKey)
    ensures
        m.entry_state(id, initial).priority == AnimPriority::Lowest ==> m.admits(id, priority, initial),
        m.admits(id, AnimPriority::Realtime, initial),
        m.admits(id, m.entry_state(id, initial).priority, initial),
{
}

/// Finishing the animation just prepared on a state shows its target style.
pub proof fn law_finish_shows_target(s: AnimState)
    ensures
        ({
            let p = s.spec_pre_animated();
            &&& p.spec_step_finishes(p.version, Some(Progress::Done))
            &&& p.spec_animated(p.version, Some(Progress::Done)).cur == p.to
            &&& p.spec_animated(p.version, Some(Progress::Done)).from == s.cur
        }),
{
}

/// A request whose modifier keeps the target, other than the pointer
/// entering, starts nothing: the running animations and held hovers stay as
/// they were after admission, and the element is released to the lowest
/// priority.
pub proof fn law_unchanged_target_starts_nothing(
    m: EngineModel,
    id: u64,
    event: AnimEvent,
    duration: Duration,
    transition: TransitionKey,
    persistent: bool,
    input: AnimState,
    next: AnimState,
)
    requires
        next.to == input.to,
        !is_hover_enter(event, persistent),
    ensures
        ({
            let c = m.after_commit(id, event, duration, transition, persistent, input, next);
            &&& c.active == m.active
            &&& c.held == m.held
            &&& c.interrupted == m.interrupted
            &&& c.states[id].priority == AnimPriority::Lowest
            &&& EngineModel::commit_outcome(input, next) == crate::engine::SubmitOutcome::Unchanged
        }),
{
}

/// A started animation drives the element's current version, so the next
/// tick advances it rather than discarding it as outdated.
pub proof fn law_started_animation_is_current(
    m: EngineModel,
    id: u64,
    event: AnimEvent,
    duration: Duration,
    transition: TransitionKey,
    persistent: bool,
    input: AnimState,
    next: AnimState,
)
    requires
        next.to != input.to,
    ensures
        ({
            let c = m.after_commit(id, event, duration, transition, persistent, input, next);
            &&& c.active.contains_key(id)
            &&& c.states.contains_key(id)
            &&& c.active[id].version == c.states[id].version
            &&& c.states[id].from == next.cur
            &&& c.states[id].to == next.to
        }),
{
}

/// When a tick resumes a hover (the held one after a non-persistent
/// animation, the interrupted one after a persistent animation), the
/// resumed animation and the restart reported for it run with that hover's
/// own duration and timing curve, not those of the animation that just
/// ended, and head for the hover's target.
pub proof fn law_resumed_hover_keeps_its_timing(m: EngineModel, frames: Seq<(u64, Progress)>, id: u64)
    requires
        m.states.contains_key(id),
        m.active.contains_key(id),
        m.tick_finishes(frames, id),
        if m.active[id].persistent {
            m.interrupted.contains_key(id)
        } else {
            m.held.contains_key(id)
        },
    ensures
        ({
            let ctx = if m.active[id].persistent { m.interrupted[id] } else { m.held[id] };
            let t = m.after_tick(frames);
            let r = m.tick_restart(frames, id);
            &&& t.active.contains_key(id)
            &&& t.active[id].origin_duration == ctx.duration
            &&& t.active[id].transition == ctx.transition
            &&& t.active[id].event == ctx.event
            &&& t.active[id].persistent
            &&& t.states[id].to == ctx.style
            &&& r is Some
            &&& r->0.id == id
            &&& r->0.duration == ctx.duration
            &&& r->0.transition == ctx.transition
            &&& r->0.version == t.states[id].version
        }),
{
    assert(m.tick_resumes(frames, id));
    assert(m.active.dom().contains(id));
}

/// An admitted request whose modifier keeps the target, whatever its event
/// and whether or not it persists (a hover entering included), starts
/// nothing and releases the element to the lowest priority, so that the next
/// request of any priority is admitted.
pub proof fn law_unchanged_target_releases_element(
    m: EngineModel,
    id: u64,
    event: AnimEvent,
    duration: Duration,
    transition: TransitionKey,
    persistent: bool,
    input: AnimState,
    next: AnimState,
    later: AnimPriority,
    initial: StyleKey,
)
    requires
        next.to == input.to,
    ensures
        ({
            let c = m.after_commit(id, event, duration, transition, persistent, input, next);
            &&& c.states[id].priority == AnimPriority::Lowest
            &&& c.states[id].to == next.to
            &&& c.states[id].version == next.version
            &&& c.active == m.active
            &&& c.admits(id, later, initial)
            &&& EngineModel::commit_outcome(input, next) == crate::engine::SubmitOutcome::Unchanged
        }),
{
}

/// A partial frame changes only the style shown: the origin, the start and
/// the target of the animation, its version and its priority stay as they
/// were, and the step does not finish the animation.
pub proof fn law_partial_frame_moves_only_current(s: AnimState, k: StyleKey)
    ensures
        ({
            let p = s.spec_animated(s.version, Some(Progress::Partial(k)));
            &&& p.cur == k
            &&& p.origin == s.origin
            &&& p.from == s.from
            &&& p.to == s.to
            &&& p.version == s.version
            &&& p.priority == s.priority
            &&& !s.spec_step_finishes(s.version, Some(Progress::Partial(k)))
        }),
{
}

/// Successive partial frames keep the animation's start: after any two
/// frames the next animation counts as reversing exactly when it heads back
/// to where the animation started.
pub proof fn law_frames_keep_reversal_reference(s: AnimState, k1: StyleKey, k2: StyleKey, target: StyleKey)
    ensures
        ({
            let p = s.spec_animated(s.version, Some(Progress::Partial(k1))).spec_animated(
                s.version,
                Some(Progress::Partial(k2)),
            );
            (AnimState { to: target, ..p }).spec_is_reversing() == (target == s.from)
        }),
{
}

/// A new animation counts as reversing exactly when its target is where the
/// previous animation started; the element's origin plays no part.
pub proof fn law_reversal_is_return_to_start(s: AnimState, origin: StyleKey)
    ensures
        s.spec_is_reversing() == (s.to == s.from),
        (AnimState { origin, ..s }).spec_is_reversing() == s.spec_is_reversing(),
        s.spec_pre_animated().from == s.cur,
        s.spec_pre_animated().to == s.to,
        s.spec_pre_animated().origin == s.origin,
{
}

/// A started request reports reversal exactly when the modifier's target is
/// where the element's previous animation started.
pub proof fn law_started_reversal(input: AnimState, next: AnimState)
    requires
        next.to != input.to,
    ensures
        EngineModel::commit_outcome(input, next) == (crate::engine::SubmitOutcome::Started {
            version: crate::state::next_version(next.version),
            reversing: next.to == next.from,
        }),
{
}

/// The larger of two priorities has the greater level of the two and is one
/// of them; taking it is symmetric in level, and never lowers either.
pub proof fn law_priority_max(a: AnimPriority, b: AnimPriority)
    ensures
        a.spec_max(b).rank() == (if a.rank() >= b.rank() { a.rank() } else { b.rank() }),
        a.spec_max(b) == a || a.spec_max(b) == b,
        a.spec_max(b).rank() >= a.rank(),
        a.spec_max(b).rank() >= b.rank(),
        a.spec_max(b) == b.spec_max(a),
{
}

} // verus!
