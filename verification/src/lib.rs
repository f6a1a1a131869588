//! Verified core of a transient on-screen-display overlay.
//!
//! The library holds the logic that decides what the overlay does: resolving
//! a position spec against the chosen monitor, picking the largest monitor,
//! computing the window and frame layout, the blink animation timing, and the
//! event-loop state machine (drag tracking, move-request coalescing, timeout
//! and dismissal).  The display-protocol plumbing around it performs the
//! actions this library decides on.

pub mod blink;
pub mod engine;
pub mod errors;
pub mod geometry;
pub mod monitor;
pub mod position;
