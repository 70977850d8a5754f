//! Filters: predicate capabilities deciding which internal events a given
//! poll or read call cares about right now.

use vstd::prelude::*;

use crate::event::InternalEvent;

verus! {

/// A predicate over one internal event. `wants` is the mathematical
/// predicate; `filter` is its executable form.
pub trait Filter: Sized {
    /// Which internal events this filter selects.
    spec fn wants(&self, event: InternalEvent) -> bool;

    /// Decide whether `event` is wanted now.
    fn filter(&self, event: &InternalEvent) -> (r: bool)
        ensures
            r == self.wants(*event),
    ;
}

/// Selects only application-visible events; used by the public adapter.
#[derive(Clone, Copy, Debug)]
pub struct EventFilter;

impl Filter for EventFilter {
    open spec fn wants(&self, event: InternalEvent) -> bool {
        event is Event
    }

    fn filter(&self, event: &InternalEvent) -> (r: bool) {
        match event {
            InternalEvent::Event(_) => true,
            _ => false,
        }
    }
}

/// Selects only cursor-position reports; used by internal callers awaiting
/// that one reply while ignoring all else.
#[derive(Clone, Copy, Debug)]
pub struct CursorPositionFilter;

impl Filter for CursorPositionFilter {
    open spec fn wants(&self, event: InternalEvent) -> bool {
        event is CursorPosition
    }

    fn filter(&self, event: &InternalEvent) -> (r: bool) {
        match event {
            InternalEvent::CursorPosition(_, _) => true,
            _ => false,
        }
    }
}

/// Selects every internal event.
#[derive(Clone, Copy, Debug)]
pub struct InternalEventFilter;

impl Filter for InternalEventFilter {
    open spec fn wants(&self, event: InternalEvent) -> bool {
        true
    }

    fn filter(&self, event: &InternalEvent) -> (r: bool) {
        true
    }
}

} // verus!
