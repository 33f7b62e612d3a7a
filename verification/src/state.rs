//! Per-element animation state: the origin, start, target and current
//! styles of one element, the version of its latest animation and the
//! priority of the animation that owns it.

use vstd::prelude::*;
use crate::types::AnimPriority;

verus! {

/// Identifies a style value kept by the caller.
///
/// The engine never looks inside a style: it only copies styles between
/// slots and compares them. Callers hand out equal keys exactly for equal
/// style values; key `0` denotes the default (empty) style.
#[derive(Debug, Clone, Copy, PartialEq, Eq, Structural, Hash)]
pub struct StyleKey(pub u64);

impl Default for StyleKey {
    fn default() -> (r: Self)
        ensures
            r == StyleKey(0),
    {
        StyleKey(0)
    }
}

/// How far one running animation has come in the current frame, as measured
/// by its timing curve.
#[derive(Debug, Clone, Copy, PartialEq, Eq, Structural)]
pub enum Progress {
    /// The curve has reached its end: the target style is shown.
    Done,
    /// Still running; the style interpolated for this frame.
    Partial(StyleKey),
}

/// Core animation state of one element.
#[derive(Debug, Clone, Copy)]
pub struct AnimState {
    /// The style the element was created with.
    pub origin: StyleKey,
    /// The style the running animation started from.
    pub from: StyleKey,
    /// The style the running animation heads for.
    pub to: StyleKey,
    /// The style shown now.
    pub cur: StyleKey,
    /// Number of the latest animation started on this state.
    pub version: usize,
    /// Priority of the animation that owns this state.
    pub priority: AnimPriority,
}

/// The version that follows `v`; the counter wraps around after `usize::MAX`.
pub open spec fn next_version(v: usize) -> usize {
    if v == usize::MAX { 0 } else { (v + 1) as usize }
}

impl AnimState {
    /// State of an element that rests at `init`.
    pub open spec fn spec_new(init: StyleKey) -> AnimState {
        AnimState {
            origin: init,
            from: init,
            to: init,
            cur: init,
            version: 0,
            priority: AnimPriority::Lowest,
        }
    }

    /// The state after a new animation has been prepared on `self`.
    pub open spec fn spec_pre_animated(self) -> AnimState {
        AnimState { version: next_version(self.version), from: self.cur, ..self }
    }

    /// True when the new animation runs back to where the previous one
    /// started, so that only the elapsed part of the duration is replayed.
    pub open spec fn spec_is_reversing(self) -> bool {
        self.to == self.from
    }

    /// Whether advancing the animation numbered `snapshot_version` by
    /// `progress` ends it.
    pub open spec fn spec_step_finishes(self, snapshot_version: usize, progress: Option<Progress>) -> bool {
        snapshot_version != self.version || progress == Some(Progress::Done)
    }

    /// The state after advancing the animation numbered `snapshot_version`.
    pub open spec fn spec_animated(self, snapshot_version: usize, progress: Option<Progress>) -> AnimState {
        if snapshot_version != self.version {
            self
        } else {
            match progress {
                Some(Progress::Done) => AnimState { cur: self.to, ..self },
                Some(Progress::Partial(k)) => AnimState { cur: k, ..self },
                None => self,
            }
        }
    }

    /// Initialize state from an initial value.
    pub fn new(init: StyleKey) -> (r: Self)
        ensures
            r == Self::spec_new(init),
    {
        AnimState {
            origin: init,
            from: init,
            to: init,
            cur: init,
            version: 0,
            priority: AnimPriority::Lowest,
        }
    }

    /// Prepare for animation: bump the version and start from the style
    /// shown now.
    ///
    /// Returns the new version and whether the animation reverses the
    /// previous one (its target is where the previous one started). The
    /// caller derives the effective duration from the second value: the
    /// full duration, or, when reversing, the part already played.
    pub fn pre_animated(&mut self) -> (r: (usize, bool))
        ensures
            *final(self) == old(self).spec_pre_animated(),
            r == (next_version(old(self).version), old(self).spec_is_reversing()),
    {
        let is_reversing = self.to == self.from;
        self.version = if self.version == usize::MAX { 0 } else { self.version + 1 };
        self.from = self.cur;
        (self.version, is_reversing)
    }

    /// Advance the animation numbered `snapshot_version`. Returns true when
    /// it is finished: when a newer animation has replaced it, or when its
    /// curve is done, in which case the target style becomes current. A
    /// partial step shows the interpolated style; a missing measurement
    /// leaves the state as it is.
    pub fn animated(&mut self, snapshot_version: usize, progress: Option<Progress>) -> (r: bool)
        ensures
            *final(self) == old(self).spec_animated(snapshot_version, progress),
            r == old(self).spec_step_finishes(snapshot_version, progress),
    {
        if snapshot_version != self.version {
            return true;
        }
        match progress {
            Some(Progress::Done) => {
                self.cur = self.to;
                true
            },
            Some(Progress::Partial(k)) => {
                self.cur = k;
                false
            },
            None => false,
        }
    }

    /// Reset animation target to origin.
    pub fn origin(self) -> (r: Self)
        ensures
            r == (AnimState { to: self.origin, ..self }),
    {
        let mut s = self;
        s.to = s.origin;
        s
    }
}

impl Default for AnimState {
    /// A state resting at the default style.
    fn default() -> (r: Self)
        ensures
            r == AnimState::spec_new(StyleKey(0)),
    {
        AnimState::new(StyleKey(0))
    }
}

/// Two states are equal when they head for the same target style.
impl PartialEq for AnimState {
    fn eq(&self, other: &Self) -> (r: bool) {
        self.to == other.to
    }
}

impl vstd::std_specs::cmp::PartialEqSpecImpl for AnimState {
    open spec fn obeys_eq_spec() -> bool {
        true
    }

    open spec fn eq_spec(&self, other: &Self) -> bool {
        self.to == other.to
    }
}

} // verus!
