//! The event pipeline: typed events, filters, a deadline tracker, the event
//! source capability, and the filtered readers built on top of them.

pub mod filter;
pub mod laws;
pub mod read;
pub mod source;
pub mod timeout;

use vstd::prelude::*;

verus! {

/// An application-visible event. Only as much structure as is needed to
/// distinguish the shapes that flow through the pipeline.
#[derive(Clone, Copy, Debug, PartialEq, Eq, Structural)]
pub enum Event {
    /// A key press, carrying the raw key code.
    Key(u8),
    /// The terminal was resized to the given columns and rows.
    Resize(u16, u16),
}

/// Any event flowing through the low-level queue: either an application
/// event or a protocol-internal reply not meant for application consumers.
#[derive(Clone, Copy, Debug, PartialEq, Eq, Structural)]
pub enum InternalEvent {
    /// An application-visible event.
    Event(Event),
    /// A cursor-position report `(column, row)` answered by the terminal,
    /// consumed by internal callers querying the cursor location.
    CursorPosition(u16, u16),
}

} // verus!
