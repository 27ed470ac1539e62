//! A verified core for a terminal-rendered Game of Life: a toroidal boolean
//! grid with the standard update rule, a simulation clock with a clamped,
//! runtime-adjustable tick interval, an event-producer step that turns raw
//! input into a single ordered event stream, and the consumer state machine
//! that applies each event to the application state.
//!
//! Terminal I/O (raw-mode setup, rendering, the input source) lives outside
//! this crate; everything here is plain data and verified transitions.

pub mod app;
pub mod clock;
pub mod events;
pub mod geometry;
pub mod grid;
