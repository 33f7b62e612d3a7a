use std::time::Duration;

use gpui_anim::engine::{AnimEngine, AnimRequest, SubmitOutcome, TransitionKey};
use gpui_anim::state::{AnimState, Progress, StyleKey};
use gpui_anim::types::{AnimEvent, AnimPriority};

fn retarget(target: u64) -> impl FnOnce(AnimState) -> AnimState {
    move |mut s: AnimState| {
        s.to = StyleKey(target);
        s
    }
}

fn request(
    id: u64,
    event: AnimEvent,
    priority: AnimPriority,
    persistent: bool,
    target: u64,
) -> AnimRequest<impl FnOnce(AnimState) -> AnimState> {
    AnimRequest {
        id,
        event,
        duration: Duration::from_millis(300),
        transition: TransitionKey(7),
        priority,
        modifier: retarget(target),
        persistent,
        initial_style: StyleKey(1),
    }
}

fn done(id: u64) -> Vec<(u64, Progress)> {
    vec![(id, Progress::Done)]
}

#[test]
fn new_engine_is_idle() {
    let engine = AnimEngine::new();
    assert!(!engine.has_active_animations());
    assert!(engine.state(3).is_none());
    let engine = AnimEngine::default();
    assert!(!engine.has_active_animations());
}

#[test]
fn submit_starts_animation_towards_new_target() {
    let mut engine = AnimEngine::new();
    let out = engine.submit(request(1, AnimEvent::Click, AnimPriority::High, false, 2));
    assert_eq!(out, SubmitOutcome::Started { version: 1, reversing: false });
    assert!(engine.has_active_animations());
    let s = engine.state(1).unwrap();
    assert_eq!(s.origin, StyleKey(1));
    assert_eq!(s.from, StyleKey(1));
    assert_eq!(s.to, StyleKey(2));
    assert_eq!(s.cur, StyleKey(1));
    assert_eq!(s.version, 1);
    assert_eq!(s.priority, AnimPriority::High);
}

#[test]
fn submit_with_unchanged_target_starts_nothing() {
    let mut engine = AnimEngine::new();
    let out = engine.submit(request(1, AnimEvent::NoEvent, AnimPriority::Medium, false, 1));
    assert_eq!(out, SubmitOutcome::Unchanged);
    assert!(!engine.has_active_animations());
    let s = engine.state(1).unwrap();
    assert_eq!(s.priority, AnimPriority::Lowest);
    assert_eq!(s.version, 0);
}

#[test]
fn lower_priority_request_is_rejected() {
    let mut engine = AnimEngine::new();
    engine.submit(request(1, AnimEvent::Click, AnimPriority::High, false, 2));
    let out = engine.submit(request(1, AnimEvent::Hover, AnimPriority::Medium, true, 3));
    assert_eq!(out, SubmitOutcome::Rejected);
    let s = engine.state(1).unwrap();
    assert_eq!(s.to, StyleKey(2));
    assert_eq!(s.priority, AnimPriority::High);
}

#[test]
fn rejected_request_still_creates_state() {
    let mut engine = AnimEngine::new();
    let out = engine.submit(AnimRequest {
        id: 9,
        event: AnimEvent::NoEvent,
        duration: Duration::from_millis(10),
        transition: TransitionKey(0),
        priority: AnimPriority::Lowest,
        modifier: retarget(4),
        persistent: false,
        initial_style: StyleKey(5),
    });
    assert_eq!(out, SubmitOutcome::Started { version: 1, reversing: false });
    // a Lowest request against the Lowest-priority state is admitted (equal wins)
    assert_eq!(engine.state(9).unwrap().origin, StyleKey(5));
}

#[test]
fn equal_priority_request_overrides() {
    let mut engine = AnimEngine::new();
    engine.submit(request(1, AnimEvent::Click, AnimPriority::High, false, 2));
    let out = engine.submit(request(1, AnimEvent::Click, AnimPriority::High, false, 3));
    assert_eq!(out, SubmitOutcome::Started { version: 2, reversing: false });
    assert_eq!(engine.state(1).unwrap().to, StyleKey(3));
}

#[test]
fn partial_progress_shows_interpolated_style() {
    let mut engine = AnimEngine::new();
    engine.submit(request(1, AnimEvent::Click, AnimPriority::High, true, 2));
    let out = engine.tick(&vec![(1, Progress::Partial(StyleKey(40)))]);
    assert!(out.changed);
    assert!(out.restarts.is_empty());
    let s = engine.state(1).unwrap();
    assert_eq!(s.cur, StyleKey(40));
    assert_eq!(s.priority, AnimPriority::High);
    assert!(engine.has_active_animations());
}

#[test]
fn unlisted_element_keeps_running() {
    let mut engine = AnimEngine::new();
    engine.submit(request(1, AnimEvent::Click, AnimPriority::High, true, 2));
    let out = engine.tick(&vec![(8, Progress::Done)]);
    assert!(out.changed);
    assert_eq!(engine.state(1).unwrap().cur, StyleKey(1));
    assert!(engine.has_active_animations());
}

#[test]
fn first_listed_progress_wins() {
    let mut engine = AnimEngine::new();
    engine.submit(request(1, AnimEvent::Click, AnimPriority::High, true, 2));
    engine.tick(&vec![(1, Progress::Partial(StyleKey(30))), (1, Progress::Done)]);
    assert_eq!(engine.state(1).unwrap().cur, StyleKey(30));
    assert!(engine.has_active_animations());
}

#[test]
fn persistent_animation_finishes_at_target() {
    let mut engine = AnimEngine::new();
    engine.submit(request(1, AnimEvent::Hover, AnimPriority::Medium, true, 2));
    let out = engine.tick(&done(1));
    assert!(out.changed);
    assert!(out.restarts.is_empty());
    assert!(!engine.has_active_animations());
    let s = engine.state(1).unwrap();
    assert_eq!(s.cur, StyleKey(2));
    assert_eq!(s.to, StyleKey(2));
    assert_eq!(s.priority, AnimPriority::Lowest);
}

#[test]
fn transient_animation_returns_to_origin() {
    let mut engine = AnimEngine::new();
    engine.submit(request(1, AnimEvent::Click, AnimPriority::High, false, 2));
    let out = engine.tick(&done(1));
    assert_eq!(out.restarts.len(), 1);
    let r = &out.restarts[0];
    assert_eq!(r.id, 1);
    assert_eq!(r.version, 2);
    assert!(r.reversing);
    assert_eq!(r.duration, Duration::from_millis(300));
    assert_eq!(r.transition, TransitionKey(7));
    let s = engine.state(1).unwrap();
    assert_eq!(s.to, StyleKey(1));
    assert_eq!(s.from, StyleKey(2));
    assert_eq!(s.cur, StyleKey(2));
    assert_eq!(s.priority, AnimPriority::Lowest);
    assert!(engine.has_active_animations());
    // the return animation itself finishes and nothing follows
    let out = engine.tick(&done(1));
    assert!(out.restarts.is_empty());
    assert!(!engine.has_active_animations());
    assert_eq!(engine.state(1).unwrap().cur, StyleKey(1));
}

#[test]
fn click_interrupting_hover_resumes_hover() {
    let mut engine = AnimEngine::new();
    // hover in: persistent, medium priority, target 2
    engine.submit(request(1, AnimEvent::Hover, AnimPriority::Medium, true, 2));
    // click while hovering: high priority, target 3
    let out = engine.submit(request(1, AnimEvent::Click, AnimPriority::High, false, 3));
    assert_eq!(out, SubmitOutcome::Started { version: 2, reversing: false });
    // the click finishes: the hover target comes back
    let out = engine.tick(&done(1));
    assert_eq!(out.restarts.len(), 1);
    assert_eq!(out.restarts[0].version, 3);
    assert_eq!(out.restarts[0].duration, Duration::from_millis(300));
    let s = engine.state(1).unwrap();
    assert_eq!(s.to, StyleKey(2));
    assert_eq!(s.cur, StyleKey(3));
    assert_eq!(s.from, StyleKey(3));
    assert_eq!(s.priority, AnimPriority::Medium);
    assert!(engine.has_active_animations());
    // the resumed hover is persistent: once done it stays at the hover target
    let out = engine.tick(&done(1));
    assert!(out.restarts.is_empty());
    assert!(!engine.has_active_animations());
    assert_eq!(engine.state(1).unwrap().cur, StyleKey(2));
}

#[test]
fn resumed_hover_keeps_higher_held_priority() {
    let mut engine = AnimEngine::new();
    engine.submit(request(1, AnimEvent::Hover, AnimPriority::High, true, 2));
    engine.submit(request(1, AnimEvent::Click, AnimPriority::Realtime, false, 3));
    engine.tick(&done(1));
    assert_eq!(engine.state(1).unwrap().priority, AnimPriority::High);
}

#[test]
fn hover_leave_is_not_held() {
    let mut engine = AnimEngine::new();
    // hover out: not persistent
    engine.submit(request(1, AnimEvent::Hover, AnimPriority::Medium, false, 2));
    engine.submit(request(1, AnimEvent::Click, AnimPriority::High, false, 3));
    let out = engine.tick(&done(1));
    // no hover held: the click returns to the origin
    assert_eq!(out.restarts.len(), 1);
    assert_eq!(engine.state(1).unwrap().to, StyleKey(1));
}

#[test]
fn reversing_is_reported() {
    let mut engine = AnimEngine::new();
    engine.submit(request(1, AnimEvent::Hover, AnimPriority::Medium, true, 2));
    engine.tick(&vec![(1, Progress::Partial(StyleKey(50)))]);
    // back to where the first animation started
    let out = engine.submit(request(1, AnimEvent::Hover, AnimPriority::Medium, false, 1));
    assert_eq!(out, SubmitOutcome::Started { version: 2, reversing: true });
    assert_eq!(engine.state(1).unwrap().from, StyleKey(50));
    // the leave ends: the element rests unhovered, with no hover held
    let out = engine.tick(&done(1));
    assert!(out.changed);
    assert!(out.restarts.is_empty());
    assert!(!engine.has_active_animations());
    assert!(engine.held_hover(1).is_none());
    let s = engine.state(1).unwrap();
    assert_eq!(s.cur, StyleKey(1));
    assert_eq!(s.to, StyleKey(1));
}

#[test]
fn finished_hover_is_restored_after_click() {
    let mut engine = AnimEngine::new();
    engine.submit(request(1, AnimEvent::Hover, AnimPriority::Medium, true, 2));
    // the hover completes
    let out = engine.tick(&done(1));
    assert!(out.restarts.is_empty());
    assert!(!engine.has_active_animations());
    assert_eq!(engine.state(1).unwrap().cur, StyleKey(2));
    let held = engine.held_hover(1).unwrap();
    assert_eq!(held.style, StyleKey(2));
    assert_eq!(held.priority, AnimPriority::Medium);
    // a click takes over
    let out = engine.submit(request(1, AnimEvent::Click, AnimPriority::High, false, 3));
    assert_eq!(out, SubmitOutcome::Started { version: 2, reversing: false });
    // the click ends: the hover style comes back
    let out = engine.tick(&done(1));
    assert!(out.changed);
    assert_eq!(out.restarts.len(), 1);
    let s = engine.state(1).unwrap();
    assert_eq!(s.to, StyleKey(2));
    assert_eq!(s.priority, AnimPriority::Medium);
    let a = engine.animation(1).unwrap();
    assert_eq!(a.event, AnimEvent::Hover);
    assert!(a.persistent);
    assert_eq!(a.version, s.version);
    let out = engine.tick(&done(1));
    assert!(out.changed);
    assert!(!engine.has_active_animations());
    assert_eq!(engine.state(1).unwrap().cur, StyleKey(2));
}

#[test]
fn hover_leave_mid_animation_rests_unhovered() {
    let mut engine = AnimEngine::new();
    engine.submit(request(1, AnimEvent::Hover, AnimPriority::Medium, true, 2));
    // the pointer leaves before the hover finishes; the leave targets the origin
    let out = engine.submit(request(1, AnimEvent::Hover, AnimPriority::Medium, false, 1));
    assert_eq!(out, SubmitOutcome::Started { version: 2, reversing: true });
    assert!(engine.held_hover(1).is_none());
    let out = engine.tick(&done(1));
    assert!(out.changed);
    assert!(out.restarts.is_empty());
    assert!(!engine.has_active_animations());
    let s = engine.state(1).unwrap();
    assert_eq!(s.cur, s.origin);
    assert_eq!(s.to, s.origin);
}

#[test]
fn refused_leave_still_releases_hover() {
    let mut engine = AnimEngine::new();
    engine.submit(request(1, AnimEvent::Hover, AnimPriority::Medium, true, 2));
    engine.submit(request(1, AnimEvent::Click, AnimPriority::High, false, 3));
    // the pointer leaves while the click runs: refused, but the hover is released
    let out = engine.submit(request(1, AnimEvent::Hover, AnimPriority::Medium, false, 1));
    assert_eq!(out, SubmitOutcome::Rejected);
    assert!(engine.held_hover(1).is_none());
    assert!(engine.interrupted_hover(1).is_none());
    // the click ends and the element returns to its origin, not to the hover
    let out = engine.tick(&done(1));
    assert_eq!(out.restarts.len(), 1);
    let s = engine.state(1).unwrap();
    assert_eq!(s.to, StyleKey(1));
    let a = engine.animation(1).unwrap();
    assert_eq!(a.event, AnimEvent::NoEvent);
    assert!(!a.persistent);
}

#[test]
fn hover_held_after_unchanged_enter() {
    let mut engine = AnimEngine::new();
    // entering while already at the hover style starts nothing but holds the hover
    let out = engine.submit(request(1, AnimEvent::Hover, AnimPriority::Medium, true, 1));
    assert_eq!(out, SubmitOutcome::Unchanged);
    assert_eq!(engine.held_hover(1).unwrap().style, StyleKey(1));
    assert!(engine.animation(1).is_none());
}

#[test]
fn tick_without_animations_changes_nothing() {
    let mut engine = AnimEngine::new();
    engine.submit(request(1, AnimEvent::NoEvent, AnimPriority::Low, false, 1));
    let out = engine.tick(&done(1));
    assert!(!out.changed);
    assert!(out.restarts.is_empty());
}

#[test]
fn several_elements_tick_independently() {
    let mut engine = AnimEngine::new();
    engine.submit(request(1, AnimEvent::Click, AnimPriority::High, false, 2));
    engine.submit(request(2, AnimEvent::Hover, AnimPriority::Medium, true, 4));
    let out = engine.tick(&vec![(1, Progress::Done), (2, Progress::Partial(StyleKey(9)))]);
    assert!(out.changed);
    assert_eq!(out.restarts.len(), 1);
    assert_eq!(out.restarts[0].id, 1);
    assert_eq!(engine.state(2).unwrap().cur, StyleKey(9));
    assert_eq!(engine.state(1).unwrap().to, StyleKey(1));
}

#[test]
fn claim_and_commit_split_submission() {
    let mut engine = AnimEngine::new();
    let input = engine.claim(4, &AnimEvent::Click, false, AnimPriority::Low, StyleKey(6)).unwrap();
    assert_eq!(input.priority, AnimPriority::Low);
    assert_eq!(input.to, StyleKey(6));
    let mut next = input;
    next.to = StyleKey(8);
    let out = engine.commit(4, AnimEvent::Click, Duration::from_millis(5), TransitionKey(1), false, &input, next);
    assert_eq!(out, SubmitOutcome::Started { version: 1, reversing: false });
    assert!(engine.claim(4, &AnimEvent::Hover, true, AnimPriority::Lowest, StyleKey(6)).is_none());
}

#[test]
fn reentered_hover_heads_back_to_interrupted_hover_once() {
    let mut engine = AnimEngine::new();
    // the pointer enters with target 2, and enters again with target 3 before the first hover ends
    engine.submit(request(1, AnimEvent::Hover, AnimPriority::Medium, true, 2));
    let out = engine.submit(request(1, AnimEvent::Hover, AnimPriority::Medium, true, 3));
    assert_eq!(out, SubmitOutcome::Started { version: 2, reversing: false });
    let kept = engine.interrupted_hover(1).unwrap();
    assert_eq!(kept.style, StyleKey(2));
    assert_eq!(engine.held_hover(1).unwrap().style, StyleKey(3));
    // the second hover ends: the interrupted hover is resumed
    let out = engine.tick(&done(1));
    assert_eq!(out.restarts.len(), 1);
    assert!(engine.interrupted_hover(1).is_none());
    let s = engine.state(1).unwrap();
    assert_eq!(s.cur, StyleKey(3));
    assert_eq!(s.to, StyleKey(2));
    assert_eq!(s.priority, AnimPriority::Medium);
    let a = engine.animation(1).unwrap();
    assert!(a.persistent);
    assert_eq!(a.event, AnimEvent::Hover);
    // once that ends nothing follows
    let out = engine.tick(&done(1));
    assert!(out.restarts.is_empty());
    assert!(!engine.has_active_animations());
    assert_eq!(engine.state(1).unwrap().cur, StyleKey(2));
}

#[test]
fn interrupted_hover_dropped_when_click_ends() {
    let mut engine = AnimEngine::new();
    engine.submit(request(1, AnimEvent::Hover, AnimPriority::Medium, true, 2));
    engine.submit(request(1, AnimEvent::Click, AnimPriority::High, false, 3));
    assert_eq!(engine.interrupted_hover(1).unwrap().style, StyleKey(2));
    engine.tick(&done(1));
    // the held hover is resumed and the interrupted one is gone
    assert!(engine.interrupted_hover(1).is_none());
    assert_eq!(engine.state(1).unwrap().to, StyleKey(2));
}
