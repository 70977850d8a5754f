//! The event source capability: the platform-specific supplier of raw
//! internal events, and a deterministic in-memory implementation of it.

use core::time::Duration;
use std::collections::vec_deque::VecDeque;
use vstd::prelude::*;

use crate::error::ErrorKind;
use crate::event::InternalEvent;

verus! {

/// The supplier of raw internal events. `pending` is the stream of events it
/// will hand out, in production order; `try_read` yields them one at a time,
/// from the front and never out of order, and a timed-out or cancelled wait
/// yields none. `waits` bounds how many more empty waits the source will
/// answer before it yields an event or reports a failure; it is what lets a
/// caller's retry loop terminate. `woken` records a cancellation request
/// that the source has not yet answered, and `failed` the error its most
/// recent wait reported, so that callers can state that a cancellation
/// reached the source and that the error they hand on is the source's own.
pub trait EventSource: Sized {
    /// The events this source will produce, in production order.
    spec fn pending(&self) -> Seq<InternalEvent>;

    /// How many more empty waits this source will answer.
    spec fn waits(&self) -> nat;

    /// Whether a cancellation was requested and not yet answered.
    spec fn woken(&self) -> bool;

    /// The error the most recent wait reported; none when it succeeded.
    spec fn failed(&self) -> Option<ErrorKind>;

    /// Perform one wait of up to `timeout` (indefinite when absent) for new
    /// input. Returns the next pending event, nothing on a timed-out or
    /// cancelled wait, or the error the wait itself failed with.
    fn try_read(&mut self, timeout: Option<Duration>) -> (r: Result<
        Option<InternalEvent>,
        ErrorKind,
    >)
        ensures
            match r {
                Ok(Some(event)) => {
                    &&& old(self).pending().len() > 0
                    &&& event == old(self).pending()[0]
                    &&& final(self).pending() == old(self).pending().skip(1)
                    &&& final(self).waits() <= old(self).waits()
                    &&& final(self).failed() is None
                },
                Ok(None) => {
                    &&& final(self).pending() == old(self).pending()
                    &&& final(self).waits() < old(self).waits()
                    &&& final(self).failed() is None
                },
                Err(error) => {
                    &&& final(self).pending() == old(self).pending()
                    &&& final(self).failed() == Some(error)
                },
            },
    ;

    /// Cancel a concurrently blocked `try_read` promptly, even if its timeout
    /// has not elapsed. Loses no pending event.
    fn wake(&mut self)
        ensures
            final(self).pending() == old(self).pending(),
            final(self).woken(),
    ;
}

/// An event source fed from a fixed script of events, handed out in order.
/// Each `try_read` returns the next scripted event at once; an exhausted
/// script answers as a wait that timed out, up to the given budget of empty
/// waits, and as a cancelled wait once that budget is spent. A `wake` makes
/// the next `try_read` report a cancelled wait instead of reading.
pub struct ScriptedEventSource {
    events: VecDeque<InternalEvent>,
    woken: bool,
    empty_waits: usize,
    last_failure: Option<ErrorKind>,
}

impl ScriptedEventSource {
    /// Build a source that will produce exactly `events`, in order, and then
    /// answer up to `empty_waits` further reads as timed-out waits.
    pub fn new(events: Vec<InternalEvent>, empty_waits: usize) -> (r: Self)
        ensures
            r.pending() == events@,
            r.waits() == empty_waits,
            !r.woken(),
            r.failed() is None,
    {
        let mut queue: VecDeque<InternalEvent> = VecDeque::new();
        let mut i: usize = 0;
        while i < events.len()
            invariant
                0 <= i <= events@.len(),
                queue@ == events@.take(i as int),
            decreases events@.len() - i,
        {
            queue.push_back(events[i]);
            proof {
                assert(events@.take(i + 1 as int) =~= events@.take(i as int) + seq![
                    events@[i as int],
                ]);
            }
            i = i + 1;
        }
        proof {
            assert(events@.take(events@.len() as int) =~= events@);
        }
        ScriptedEventSource { events: queue, woken: false, empty_waits, last_failure: None }
    }
}

impl EventSource for ScriptedEventSource {
    closed spec fn pending(&self) -> Seq<InternalEvent> {
        self.events@
    }

    closed spec fn waits(&self) -> nat {
        self.empty_waits as nat
    }

    closed spec fn woken(&self) -> bool {
        self.woken
    }

    closed spec fn failed(&self) -> Option<ErrorKind> {
        self.last_failure
    }

    fn try_read(&mut self, timeout: Option<Duration>) -> (r: Result<
        Option<InternalEvent>,
        ErrorKind,
    >)
        ensures
            old(self).woken() ==> r is Err && r->Err_0 is Interrupted && final(self).pending()
                == old(self).pending(),
            !old(self).woken() && old(self).pending().len() > 0 ==> r is Ok && r->Ok_0 == Some(
                old(self).pending()[0],
            ),
            !old(self).woken() && old(self).pending().len() == 0 && old(self).waits() > 0 ==> r
                is Ok && r->Ok_0 is None,
            !old(self).woken() && old(self).pending().len() == 0 && old(self).waits() == 0 ==> r
                is Err && r->Err_0 is Interrupted,
            !final(self).woken(),
    {
        if self.woken {
            self.woken = false;
            self.last_failure = Some(ErrorKind::Interrupted);
            return Err(ErrorKind::Interrupted);
        }
        match self.events.pop_front() {
            Some(event) => {
                self.last_failure = None;
                Ok(Some(event))
            },
            None => {
                if self.empty_waits > 0 {
                    self.empty_waits = self.empty_waits - 1;
                    self.last_failure = None;
                    Ok(None)
                } else {
                    self.last_failure = Some(ErrorKind::Interrupted);
                    Err(ErrorKind::Interrupted)
                }
            },
        }
    }

    fn wake(&mut self)
        ensures
            final(self).waits() == old(self).waits(),
    {
        self.woken = true;
    }
}

} // verus!
