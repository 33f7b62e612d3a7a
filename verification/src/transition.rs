//! Timing curves and their conversion to shared handles.
//!
//! The curves map elapsed time to eased progress with floating-point
//! arithmetic; that mapping is implemented by the application layer, which
//! also keeps the registry from which a `TransitionKey` is handed out.

use vstd::prelude::*;
use std::sync::Arc;

verus! {

/// Helper trait to convert a transition into a shared `Arc` handle: a curve
/// value is wrapped, an `Arc` is passed through.
pub trait IntoArcTransition<T>: Sized {
    /// The curve value a conversion shares.
    spec fn curve(self) -> T;

    fn into_arc(self) -> (r: Arc<T>)
        ensures
            *r == self.curve(),
    ;
}

impl<T> IntoArcTransition<T> for T {
    open spec fn curve(self) -> T {
        self
    }

    fn into_arc(self) -> Arc<T> {
        Arc::new(self)
    }
}

impl<T> IntoArcTransition<T> for Arc<T> {
    open spec fn curve(self) -> T {
        *self
    }

    fn into_arc(self) -> Arc<T> {
        self
    }
}

/// Linear transition curve (no easing).
#[derive(Debug, Clone, Copy, Default)]
pub struct Linear;

/// Ease-in quadratic curve.
#[derive(Debug, Clone, Copy, Default)]
pub struct EaseInQuad;

/// Ease-out quadratic curve.
#[derive(Debug, Clone, Copy, Default)]
pub struct EaseOutQuad;

/// Ease-in-out quadratic curve.
#[derive(Debug, Clone, Copy, Default)]
pub struct EaseInOutQuad;

/// Ease-in-out cubic curve.
#[derive(Debug, Clone, Copy, Default)]
pub struct EaseInOutCubic;

/// Ease-out sine curve.
#[derive(Debug, Clone, Copy, Default)]
pub struct EaseOutSine;

/// Ease-in exponential curve.
#[derive(Debug, Clone, Copy, Default)]
pub struct EaseInExpo;

} // verus!
