use std::sync::Arc;
use std::time::Duration;

use gpui_anim::engine::{AnimEngine, SubmitOutcome, TransitionKey};
use gpui_anim::interaction::{choose_modifier, declarative_request, InteractionTransition, Interactions};
use gpui_anim::policies::{
    DefaultInterruptionPolicy, DefaultPriorityPolicy, InterruptionPolicy, PriorityPolicy,
};
use gpui_anim::scheduler::{after_tick, LoopStep, StartGate, Wait};
use gpui_anim::state::{AnimState, Progress, StyleKey};
use gpui_anim::transition::{IntoArcTransition, Linear};
use gpui_anim::types::{AnimEvent, AnimPriority};

#[test]
fn priority_levels() {
    assert_eq!(AnimPriority::Lowest.level(), 0);
    assert_eq!(AnimPriority::Low.level(), 25);
    assert_eq!(AnimPriority::Medium.level(), 50);
    assert_eq!(AnimPriority::High.level(), 75);
    assert_eq!(AnimPriority::Realtime.level(), 100);
    assert_eq!(AnimPriority::default(), AnimPriority::Lowest);
}

#[test]
fn priority_max() {
    assert_eq!(AnimPriority::Low.max(AnimPriority::Medium), AnimPriority::Medium);
    assert_eq!(AnimPriority::High.max(AnimPriority::Medium), AnimPriority::High);
    assert_eq!(AnimPriority::Medium.max(AnimPriority::Medium), AnimPriority::Medium);
    assert!(AnimPriority::Realtime > AnimPriority::High);
}

#[test]
fn default_priority_policy_higher_or_equal_wins() {
    let p = DefaultPriorityPolicy;
    assert!(p.should_override(AnimPriority::Low, AnimPriority::High));
    assert!(p.should_override(AnimPriority::High, AnimPriority::High));
    assert!(!p.should_override(AnimPriority::High, AnimPriority::Medium));
    assert!(p.should_override(AnimPriority::Realtime, AnimPriority::Realtime));
    assert!(!p.should_override(AnimPriority::Low, AnimPriority::Lowest));
}

#[test]
fn default_interruption_policy_allows_all() {
    let p = DefaultInterruptionPolicy;
    assert!(p.can_interrupt(&AnimEvent::Click, &AnimEvent::Hover));
    assert!(p.can_interrupt(&AnimEvent::Custom("drag".to_string()), &AnimEvent::NoEvent));
}

#[test]
fn state_new_rests_at_initial() {
    let s = AnimState::new(StyleKey(4));
    assert_eq!((s.origin, s.from, s.to, s.cur), (StyleKey(4), StyleKey(4), StyleKey(4), StyleKey(4)));
    assert_eq!(s.version, 0);
    assert_eq!(s.priority, AnimPriority::Lowest);
    let d = AnimState::default();
    assert_eq!(d.to, StyleKey(0));
    assert_eq!(StyleKey::default(), StyleKey(0));
}

#[test]
fn pre_animated_bumps_version_and_starts_from_current() {
    let mut s = AnimState::new(StyleKey(1));
    s.to = StyleKey(2);
    s.cur = StyleKey(5);
    let (v, reversing) = s.pre_animated();
    assert_eq!(v, 1);
    assert!(!reversing);
    assert_eq!(s.version, 1);
    assert_eq!(s.from, StyleKey(5));
    // heading back to where it started
    s.to = StyleKey(5);
    let (v, reversing) = s.pre_animated();
    assert_eq!(v, 2);
    assert!(reversing);
}

#[test]
fn pre_animated_version_wraps() {
    let mut s = AnimState::new(StyleKey(1));
    s.version = usize::MAX;
    let (v, _) = s.pre_animated();
    assert_eq!(v, 0);
}

#[test]
fn animated_steps() {
    let mut s = AnimState::new(StyleKey(1));
    s.to = StyleKey(2);
    let (v, _) = s.pre_animated();
    assert!(!s.animated(v, Some(Progress::Partial(StyleKey(7)))));
    assert_eq!(s.cur, StyleKey(7));
    assert!(!s.animated(v, None));
    assert_eq!(s.cur, StyleKey(7));
    assert!(s.animated(v, Some(Progress::Done)));
    assert_eq!(s.cur, StyleKey(2));
}

#[test]
fn stale_animation_is_finished_untouched() {
    let mut s = AnimState::new(StyleKey(1));
    s.to = StyleKey(2);
    s.pre_animated();
    assert!(s.animated(0, Some(Progress::Done)));
    assert_eq!(s.cur, StyleKey(1));
}

#[test]
fn origin_resets_target() {
    let mut s = AnimState::new(StyleKey(1));
    s.to = StyleKey(3);
    s.cur = StyleKey(2);
    let o = s.origin();
    assert_eq!(o.to, StyleKey(1));
    assert_eq!(o.cur, StyleKey(2));
}

#[test]
fn states_compare_by_target() {
    let mut a = AnimState::new(StyleKey(1));
    let mut b = AnimState::new(StyleKey(9));
    a.to = StyleKey(3);
    b.to = StyleKey(3);
    assert!(a == b);
    b.to = StyleKey(4);
    assert!(a != b);
}

#[test]
fn scheduler_step_after_tick() {
    assert_eq!(after_tick(true, true), LoopStep { refresh: true, wait: Wait::NextFrame });
    assert_eq!(after_tick(false, false), LoopStep { refresh: false, wait: Wait::UntilWoken });
    assert_eq!(after_tick(true, false), LoopStep { refresh: true, wait: Wait::UntilWoken });
}

#[test]
fn scheduler_starts_once() {
    let mut gate = StartGate::new();
    assert!(gate.try_start());
    assert!(!gate.try_start());
    assert!(!gate.try_start());
}

#[test]
fn interaction_defaults() {
    let d = Duration::from_millis(200);
    let i = Interactions::new().transition_on_hover(d).transition_on_click(Duration::from_millis(90));
    let h: InteractionTransition = i.hover.unwrap();
    assert_eq!(h.priority, AnimPriority::Medium);
    assert_eq!(h.duration, d);
    assert_eq!(i.click.unwrap().priority, AnimPriority::High);
    let i = i.transition_on_hover_with_priority(d, AnimPriority::Low);
    assert_eq!(i.hover.unwrap().priority, AnimPriority::Low);
    assert_eq!(i.click.unwrap().duration, Duration::from_millis(90));
    let i = i.transition_on_click_with_priority(d, AnimPriority::Realtime);
    assert_eq!(i.click.unwrap().priority, AnimPriority::Realtime);
}

#[test]
fn hover_and_click_requests() {
    let d = Duration::from_millis(200);
    let none = Interactions::new();
    assert!(none.hover_request(1, true, TransitionKey(1), StyleKey(0), |s: AnimState| s).is_none());
    assert!(none.click_request(1, TransitionKey(1), StyleKey(0), |s: AnimState| s).is_none());
    let i = Interactions::new().transition_on_hover(d).transition_on_click(d);
    let r = i.hover_request(5, true, TransitionKey(1), StyleKey(3), |s: AnimState| s).unwrap();
    assert_eq!((r.id, r.event.clone(), r.priority, r.persistent), (5, AnimEvent::Hover, AnimPriority::Medium, true));
    assert_eq!(r.initial_style, StyleKey(3));
    assert_eq!(r.transition, TransitionKey(1));
    let r = i.hover_request(5, false, TransitionKey(1), StyleKey(3), |s: AnimState| s).unwrap();
    assert!(!r.persistent);
    let r = i.click_request(5, TransitionKey(2), StyleKey(3), |s: AnimState| s).unwrap();
    assert_eq!((r.event.clone(), r.priority, r.persistent), (AnimEvent::Click, AnimPriority::High, false));
    assert_eq!(r.transition, TransitionKey(2));
}

#[test]
fn declarative_requests() {
    let d = Duration::from_millis(50);
    let r = declarative_request(2, d, TransitionKey(6), None, StyleKey(1), |s: AnimState| s);
    assert_eq!((r.event.clone(), r.priority, r.persistent), (AnimEvent::NoEvent, AnimPriority::Lowest, false));
    assert_eq!(r.duration, d);
    let r = declarative_request(2, d, TransitionKey(6), Some(AnimPriority::High), StyleKey(1), |s: AnimState| s);
    assert_eq!(r.priority, AnimPriority::High);
}

#[test]
fn declarative_request_through_engine() {
    let mut engine = AnimEngine::new();
    let r = declarative_request(2, Duration::from_millis(50), TransitionKey(6), None, StyleKey(1), |mut s: AnimState| {
        s.to = StyleKey(2);
        s
    });
    assert_eq!(engine.submit(r), SubmitOutcome::Started { version: 1, reversing: false });
}

#[test]
fn into_arc_wraps_or_passes_through() {
    let a: Arc<Linear> = Linear.into_arc();
    let b: Arc<Linear> = a.clone().into_arc();
    assert!(Arc::ptr_eq(&a, &b));
    let c: Arc<u32> = 5u32.into_arc();
    assert_eq!(*c, 5);
}

#[test]
fn choose_modifier_picks_branch() {
    assert_eq!(choose_modifier(true, 1, 2), 1);
    assert_eq!(choose_modifier(false, 1, 2), 2);
}
