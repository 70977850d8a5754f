//! Platform-abstraction core of a terminal control library.
//!
//! Two subsystems: the event pipeline (an event source feeding an ordered
//! queue, with filter-driven selection and timeout-bounded polling) and the
//! display control backend (boundary-exact arithmetic for clearing, scrolling
//! and resizing a character grid).

pub mod error;
pub mod event;
pub mod terminal;
