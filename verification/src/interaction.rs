//! The rules by which an animated element turns interactions and declared
//! conditions into animation requests: which event tag, which priority and
//! whether the reached style persists.

use vstd::prelude::*;
use std::time::Duration;
use crate::engine::{AnimRequest, TransitionKey};
use crate::state::StyleKey;
use crate::types::{AnimEvent, AnimPriority};

verus! {

/// The duration and priority of the transition an interaction (hover or
/// click) runs. Its timing curve is handed over with each request.
#[derive(Debug, Clone, Copy)]
pub struct InteractionTransition {
    pub duration: Duration,
    pub priority: AnimPriority,
}

/// The transitions an animated element runs when hovered and when clicked.
#[derive(Debug, Clone, Copy)]
pub struct Interactions {
    pub hover: Option<InteractionTransition>,
    pub click: Option<InteractionTransition>,
}

impl Interactions {
    /// No transition on hover nor on click.
    pub fn new() -> (r: Self)
        ensures
            r.hover is None,
            r.click is None,
    {
        Interactions { hover: None, click: None }
    }

    /// Animate over `duration` when the element is hovered or left,
    /// with medium priority.
    pub fn transition_on_hover(self, duration: Duration) -> (r: Self)
        ensures
            r.hover == Some(InteractionTransition { duration, priority: AnimPriority::Medium }),
            r.click == self.click,
    {
        self.transition_on_hover_with_priority(duration, AnimPriority::Medium)
    }

    /// Animate over `duration` when the element is hovered or left,
    /// with the given priority.
    pub fn transition_on_hover_with_priority(self, duration: Duration, priority: AnimPriority) -> (r: Self)
        ensures
            r.hover == Some(InteractionTransition { duration, priority }),
            r.click == self.click,
    {
        Interactions { hover: Some(InteractionTransition { duration, priority }), click: self.click }
    }

    /// Animate over `duration` when the element is clicked, with
    /// high priority.
    pub fn transition_on_click(self, duration: Duration) -> (r: Self)
        ensures
            r.click == Some(InteractionTransition { duration, priority: AnimPriority::High }),
            r.hover == self.hover,
    {
        self.transition_on_click_with_priority(duration, AnimPriority::High)
    }

    /// Animate over `duration` when the element is clicked, with
    /// the given priority.
    pub fn transition_on_click_with_priority(self, duration: Duration, priority: AnimPriority) -> (r: Self)
        ensures
            r.click == Some(InteractionTransition { duration, priority }),
            r.hover == self.hover,
    {
        Interactions { hover: self.hover, click: Some(InteractionTransition { duration, priority }) }
    }

    /// The request for element `id`, animated along `transition`, when the
    /// pointer enters (`hovered`) or leaves it, if a hover transition is set:
    /// a hover request whose reached style persists while the pointer stays.
    pub fn hover_request<F>(
        &self,
        id: u64,
        hovered: bool,
        transition: TransitionKey,
        initial_style: StyleKey,
        modifier: F,
    ) -> (r: Option<AnimRequest<F>>)
        ensures
            r == (match self.hover {
                None => None,
                Some(h) => Some(
                    AnimRequest {
                        id,
                        event: AnimEvent::Hover,
                        duration: h.duration,
                        transition,
                        priority: h.priority,
                        modifier,
                        persistent: hovered,
                        initial_style,
                    },
                ),
            }),
    {
        match self.hover {
            None => None,
            Some(h) => Some(
                AnimRequest {
                    id,
                    event: AnimEvent::Hover,
                    duration: h.duration,
                    transition,
                    priority: h.priority,
                    modifier,
                    persistent: hovered,
                    initial_style,
                },
            ),
        }
    }

    /// The request for element `id`, animated along `transition`, when it is
    /// clicked, if a click transition is set: a click request whose style
    /// does not persist.
    pub fn click_request<F>(&self, id: u64, transition: TransitionKey, initial_style: StyleKey, modifier: F) -> (r: Option<AnimRequest<F>>)
        ensures
            r == (match self.click {
                None => None,
                Some(c) => Some(
                    AnimRequest {
                        id,
                        event: AnimEvent::Click,
                        duration: c.duration,
                        transition,
                        priority: c.priority,
                        modifier,
                        persistent: false,
                        initial_style,
                    },
                ),
            }),
    {
        match self.click {
            None => None,
            Some(c) => Some(
                AnimRequest {
                    id,
                    event: AnimEvent::Click,
                    duration: c.duration,
                    transition,
                    priority: c.priority,
                    modifier,
                    persistent: false,
                    initial_style,
                },
            ),
        }
    }
}

/// The modifier a two-way declarative transition runs: `then` when the
/// condition holds, `else_fn` otherwise.
pub fn choose_modifier<F>(condition: bool, then: F, else_fn: F) -> (r: F)
    ensures
        r == (if condition { then } else { else_fn }),
{
    if condition {
        then
    } else {
        else_fn
    }
}

/// The request of a declarative transition (one run because a condition
/// held when the element was built): no event tag, not persistent, and the
/// lowest priority unless one is given.
pub fn declarative_request<F>(
    id: u64,
    duration: Duration,
    transition: TransitionKey,
    priority: Option<AnimPriority>,
    initial_style: StyleKey,
    modifier: F,
) -> (r: AnimRequest<F>)
    ensures
        r == (AnimRequest {
            id,
            event: AnimEvent::NoEvent,
            duration,
            transition,
            priority: match priority {
                Some(p) => p,
                None => AnimPriority::Lowest,
            },
            modifier,
            persistent: false,
            initial_style,
        }),
{
    let priority = match priority {
        Some(p) => p,
        None => AnimPriority::Lowest,
    };
    AnimRequest { id, event: AnimEvent::NoEvent, duration, transition, priority, modifier, persistent: false, initial_style }
}

} // verus!
