//! A delay whose resolution can be pushed back while it is pending.
//!
//! The delay aims for a target instant and resolves no earlier than it.
//! Any number of handles share the delay's state and may move the target
//! later at any time before resolution; moves to an earlier instant and
//! moves after resolution are refused.
//!
//! Instants are plain tick counts (`u64`). The code that owns a real clock
//! and a real timer converts its instants to ticks, drives
//! [`PostponableDelay::wake`] each time its timer fires, and arms a fresh
//! timer whenever `wake` asks for one.

pub mod delay;
pub mod laws;
pub mod response;
pub mod state;

pub use delay::{PostponableDelay, PostponableDelayHandle};
pub use response::PostponeDelayResponse;
pub use state::{SharedState, WakeAction};
