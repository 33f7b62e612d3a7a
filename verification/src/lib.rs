//! Verified animation control core: event and priority types, conflict
//! policies, per-element animation state and the animation engine that
//! decides which transitions start, finish, resume or return to the origin.

pub mod policies;
pub mod state;
pub mod tables;
pub mod transition;
pub mod engine;
pub mod interaction;
pub mod laws;
pub mod scheduler;
pub mod types;
