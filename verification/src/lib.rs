//! A keypress race engine: the user races to produce a fixed number of
//! distinct key press-release cycles, and the engine measures elapsed time
//! and rate.
//!
//! The crate is split into a key tracker, which turns a raw (auto-repeating)
//! keyboard event stream into a stream of distinct press signals, and a race
//! engine, which owns the race lifecycle and derives all statistics. All
//! timing is in integer milliseconds from a monotonic clock that the caller
//! supplies; presentation (formatting, DOM, random affirmation draw) is left
//! to an adapter.

pub mod affirmations;
pub mod key_tracker;
pub mod race_engine;

pub use key_tracker::DistinctPress;
pub use key_tracker::KeyTracker;
pub use race_engine::RaceEngine;
pub use race_engine::RaceState;
pub use race_engine::RenderEvent;
pub use race_engine::StatsSnapshot;
pub use race_engine::UiState;
