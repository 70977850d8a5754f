//! The readers: filtered, timeout-bounded polling and blocking filtered
//! reads over an ordered queue of buffered internal events plus one event
//! source, with the skip-buffer reordering that keeps unmatched events in
//! original relative order.

use core::time::Duration;
use std::collections::vec_deque::VecDeque;
use vstd::prelude::*;

use crate::error::ErrorKind;
use crate::event::filter::{EventFilter, Filter};
use crate::event::source::EventSource;
use crate::event::timeout::PollTimeout;
use crate::event::{Event, InternalEvent};
use vstd::pervasive::unreached;

verus! {

/// Whether some event of `q` is selected by `f`.
pub open spec fn queue_has_match<F: Filter>(q: Seq<InternalEvent>, f: F) -> bool {
    exists|i: int| 0 <= i < q.len() && f.wants(q[i])
}

/// Whether every event of `q` before position `k` fails `f`.
pub open spec fn all_fail_before<F: Filter>(q: Seq<InternalEvent>, f: F, k: int) -> bool {
    forall|i: int| 0 <= i < k ==> !f.wants(q[i])
}

/// What a successful `read` on a reader in state `pre` did, leaving state
/// `post`: `event`, at position `j` of the events available in `pre` (queue
/// first, then the source's stream), is the earliest available match of `f`;
/// it is removed, and the events inspected and rejected before it are
/// reappended behind the remaining ones, keeping their relative order.
pub open spec fn read_delivered<S: EventSource, F: Filter>(
    pre: InternalEventReader<S>,
    post: InternalEventReader<S>,
    f: F,
    event: InternalEvent,
    j: int,
) -> bool {
    &&& is_first_match(pre.available(), f, j)
    &&& event == pre.available()[j]
    &&& j < pre.queue().len() ==> post.queue() == pre.queue().skip(j + 1) + pre.queue().take(j)
        && post.source_pending() == pre.source_pending()
    &&& j >= pre.queue().len() ==> post.queue() == pre.source_pending().take(
        j - pre.queue().len(),
    ) + pre.queue() && post.source_pending() == pre.source_pending().skip(
        j - pre.queue().len() + 1,
    )
}

/// Whether `j` is the position of the earliest event of `q` selected by `f`.
pub open spec fn is_first_match<F: Filter>(q: Seq<InternalEvent>, f: F, j: int) -> bool {
    &&& 0 <= j < q.len()
    &&& f.wants(q[j])
    &&& forall|i: int| 0 <= i < j ==> !f.wants(q[i])
}

/// Reads `InternalEvent`s: an ordered queue of buffered events plus one
/// event source, or no source at all when setting one up failed, in which
/// case every poll and read reports an initialization failure.
pub struct InternalEventReader<S: EventSource> {
    events: VecDeque<InternalEvent>,
    event_source: Option<S>,
}

impl<S: EventSource> InternalEventReader<S> {
    /// The buffered events, front to back.
    pub closed spec fn queue(&self) -> Seq<InternalEvent> {
        self.events@
    }

    /// The events the source will still produce; empty when there is none.
    pub closed spec fn source_pending(&self) -> Seq<InternalEvent> {
        match self.event_source {
            Some(source) => source.pending(),
            None => Seq::empty(),
        }
    }

    /// Whether an event source was set up for this reader.
    pub closed spec fn has_source(&self) -> bool {
        self.event_source is Some
    }

    /// Whether a cancellation was requested of the source and not yet
    /// answered; false when there is none.
    pub closed spec fn source_woken(&self) -> bool {
        match self.event_source {
            Some(source) => source.woken(),
            None => false,
        }
    }

    /// The error the source's most recent wait reported; none when there is
    /// no source or the wait succeeded.
    pub closed spec fn source_failed(&self) -> Option<ErrorKind> {
        match self.event_source {
            Some(source) => source.failed(),
            None => None,
        }
    }

    /// The source itself, to state what a call did to it.
    pub closed spec fn source(&self) -> S
        recommends
            self.has_source(),
    {
        self.event_source->Some_0
    }

    /// Every event still held by this reader, in the order a draining read
    /// would inspect them: the queue first, then the source's stream.
    pub open spec fn available(&self) -> Seq<InternalEvent> {
        self.queue() + self.source_pending()
    }

    /// Constructs a reader that owns `source`, with nothing buffered.
    pub fn new(source: S) -> (r: Self)
        ensures
            r.queue() == Seq::<InternalEvent>::empty(),
            r.has_source(),
            r.source() == source,
            r.source_pending() == source.pending(),
    {
        InternalEventReader { event_source: Some(source), events: VecDeque::new() }
    }

    /// Constructs a reader for the case that no event source could be set
    /// up: every subsequent poll or read reports an initialization failure.
    pub fn without_source() -> (r: Self)
        ensures
            r.queue() == Seq::<InternalEvent>::empty(),
            !r.has_source(),
            r.source_pending() == Seq::<InternalEvent>::empty(),
    {
        InternalEventReader { event_source: None, events: VecDeque::new() }
    }

    /// How many events are buffered in the queue right now.
    pub fn buffered_len(&self) -> (r: usize)
        ensures
            r == self.queue().len(),
    {
        self.events.len()
    }

    /// Cancel a concurrently blocked wait promptly. Forwards to the event
    /// source, so the cancellation provably reaches it; loses no event. With
    /// no source there is nothing to cancel and nothing changes.
    pub fn wake(&mut self)
        ensures
            final(self).queue() == old(self).queue(),
            final(self).has_source() == old(self).has_source(),
            final(self).source_pending() == old(self).source_pending(),
            old(self).has_source() ==> final(self).source_woken(),
            !old(self).has_source() ==> *final(self) == *old(self),
    {
        match self.event_source.as_mut() {
            Some(source) => source.wake(),
            None => (),
        }
    }

    /// How many more empty waits the source will answer; zero when there is
    /// no source.
    pub closed spec fn source_waits(&self) -> nat {
        match self.event_source {
            Some(source) => source.waits(),
            None => 0,
        }
    }

    /// Whether an event satisfying `filter` is available within `timeout`,
    /// without consuming it except by buffering it.
    ///
    /// A buffered match is reported at once, touching nothing. Otherwise the
    /// source is read in a loop: events that fail the filter are kept aside
    /// in a skip buffer and reappended to the queue in original order; the
    /// first match is pushed to the front of the queue, so that a subsequent
    /// read finds it first.
    pub fn poll<F: Filter>(&mut self, timeout: Option<Duration>, filter: &F) -> (r: Result<
        bool,
        ErrorKind,
    >)
        ensures
            final(self).has_source() == old(self).has_source(),
            queue_has_match(old(self).queue(), *filter) ==> r == Ok::<bool, ErrorKind>(true)
                && *final(self) == *old(self),
            r == Ok::<bool, ErrorKind>(true) && !queue_has_match(old(self).queue(), *filter)
                ==> exists|k: int|
                is_first_match(old(self).source_pending(), *filter, k) && final(self).queue()
                    == seq![old(self).source_pending()[k]] + old(self).queue() + old(
                    self,
                ).source_pending().take(k) && final(self).source_pending() == old(
                    self,
                ).source_pending().skip(k + 1),
            r == Ok::<bool, ErrorKind>(false) ==> {
                &&& !queue_has_match(old(self).queue(), *filter)
                &&& timeout is Some
                &&& exists|k: int|
                    0 <= k <= old(self).source_pending().len() && all_fail_before(
                        old(self).source_pending(),
                        *filter,
                        k,
                    ) && final(self).queue() == old(self).queue() + old(
                        self,
                    ).source_pending().take(k) && final(self).source_pending() == old(
                        self,
                    ).source_pending().skip(k)
            },
            r is Err ==> {
                &&& !queue_has_match(old(self).queue(), *filter)
                &&& final(self).queue() == old(self).queue()
                &&& exists|k: int|
                    0 <= k <= old(self).source_pending().len() && all_fail_before(
                        old(self).source_pending(),
                        *filter,
                        k,
                    ) && final(self).source_pending() == old(self).source_pending().skip(k)
            },
            !old(self).has_source() && !queue_has_match(old(self).queue(), *filter) ==> r is Err
                && r->Err_0 is InitializationFailed && *final(self) == *old(self),
            r is Err && old(self).has_source() ==> final(self).source_failed() == Some(r->Err_0),
    {
        let ghost q0 = self.queue();
        let ghost e0 = self.source_pending();

        let n = self.events.len();
        let mut i: usize = 0;
        while i < n
            invariant
                *self == *old(self),
                n == self.events@.len(),
                0 <= i <= n,
                forall|j: int| 0 <= j < i ==> !filter.wants(self.events@[j]),
            decreases n - i,
        {
            if filter.filter(&self.events[i]) {
                return Ok(true);
            }
            i = i + 1;
        }
        assert(!queue_has_match(q0, *filter));

        if self.event_source.is_none() {
            proof {
                assert(e0.skip(0) =~= e0);
                assert(all_fail_before(e0, *filter, 0) && self.source_pending() == e0.skip(0));
            }
            return Err(ErrorKind::InitializationFailed);
        }

        let poll_timeout = PollTimeout::new(timeout);
        let mut skipped_events: VecDeque<InternalEvent> = VecDeque::new();
        let ghost mut consumed: int = 0;

        loop
            invariant
                self.has_source(),
                old(self).has_source(),
                self.events@ == q0,
                q0 == old(self).queue(),
                e0 == old(self).source_pending(),
                !queue_has_match(q0, *filter),
                0 <= consumed <= e0.len(),
                skipped_events@ == e0.take(consumed),
                all_fail_before(e0, *filter, consumed),
                self.source_pending() == e0.skip(consumed),
                poll_timeout.is_unbounded() == (timeout is None),
            decreases self.source_pending().len() + self.source_waits(),
        {
            let read_result = match self.event_source.as_mut() {
                Some(source) => source.try_read(timeout),
                None => unreached(),
            };

            let maybe_event: Option<InternalEvent> = match read_result {
                Ok(Some(event)) => {
                    assert(event == e0[consumed]);
                    if filter.filter(&event) {
                        Some(event)
                    } else {
                        skipped_events.push_back(event);
                        proof {
                            consumed = consumed + 1;
                            assert(e0.take(consumed) =~= e0.take(consumed - 1) + seq![
                                e0[consumed - 1],
                            ]);
                            assert(e0.skip(consumed - 1).skip(1) =~= e0.skip(consumed));
                        }
                        None
                    }
                },
                Ok(None) => None,
                Err(error) => {
                    return Err(error);
                },
            };

            if poll_timeout.elapsed() || maybe_event.is_some() {
                let ghost flushed = consumed;
                proof {
                    if maybe_event is Some {
                        assert(e0.skip(consumed).skip(1) =~= e0.skip(consumed + 1));
                    }
                }
                while skipped_events.len() > 0
                    invariant
                        self.has_source(),
                        self.events@ + skipped_events@ == q0 + e0.take(flushed),
                        self.source_pending() == (if maybe_event is Some {
                            e0.skip(flushed + 1)
                        } else {
                            e0.skip(flushed)
                        }),
                    decreases skipped_events@.len(),
                {
                    let ghost sk = skipped_events@;
                    if let Some(event) = skipped_events.pop_front() {
                        self.events.push_back(event);
                        proof {
                            assert(sk =~= seq![sk[0]] + sk.skip(1));
                        }
                    }
                }
                assert(self.events@ =~= q0 + e0.take(flushed));

                if let Some(event) = maybe_event {
                    self.events.push_front(event);
                    proof {
                        assert(self.events@ == seq![e0[consumed]] + (q0 + e0.take(consumed)));
                        assert(seq![e0[consumed]] + (q0 + e0.take(consumed)) =~= seq![e0[consumed]]
                            + q0 + e0.take(consumed));
                        assert(self.source_pending() == e0.skip(consumed).skip(1));
                        assert(e0.skip(consumed).skip(1) =~= e0.skip(consumed + 1));
                        assert(is_first_match(e0, *filter, consumed));
                    }
                    return Ok(true);
                }
                proof {
                    assert(0 <= flushed <= e0.len() && all_fail_before(e0, *filter, flushed)
                        && self.events@ == q0 + e0.take(flushed) && self.source_pending()
                        == e0.skip(flushed));
                }
                return Ok(false);
            }
        }
    }

    /// Drain the queue from the front until an event satisfies `filter`:
    /// that event is removed and returned, after the skip buffer and the
    /// events rejected on the way are reappended in original order. With no
    /// buffered match, the whole queue moves into the skip buffer instead.
    fn take_first_match<F: Filter>(
        &mut self,
        filter: &F,
        skipped_events: &mut VecDeque<InternalEvent>,
    ) -> (r: Option<InternalEvent>)
        ensures
            final(self).has_source() == old(self).has_source(),
            final(self).source_pending() == old(self).source_pending(),
            match r {
                None => {
                    &&& final(self).queue() == Seq::<InternalEvent>::empty()
                    &&& final(skipped_events)@ == old(skipped_events)@ + old(self).queue()
                    &&& forall|i: int|
                        0 <= i < old(self).queue().len() ==> !filter.wants(old(self).queue()[i])
                },
                Some(event) => {
                    &&& filter.wants(event)
                    &&& final(skipped_events)@ == Seq::<InternalEvent>::empty()
                    &&& exists|j: int|
                        is_first_match(old(self).queue(), *filter, j) && event == old(
                            self,
                        ).queue()[j] && final(self).queue() == old(self).queue().skip(j + 1) + old(
                            skipped_events,
                        )@ + old(self).queue().take(j)
                },
            },
    {
        let ghost q0 = self.queue();
        let ghost s0 = skipped_events@;
        let ghost mut n: int = 0;
        while self.events.len() > 0
            invariant
                self.has_source() == old(self).has_source(),
                self.source_pending() == old(self).source_pending(),
                0 <= n <= q0.len(),
                q0 == old(self).queue(),
                s0 == old(skipped_events)@,
                self.events@ == q0.skip(n),
                skipped_events@ == s0 + q0.take(n),
                forall|i: int| 0 <= i < n ==> !filter.wants(q0[i]),
            decreases self.events@.len(),
        {
            let event = match self.events.pop_front() {
                Some(event) => event,
                None => unreached(),
            };
            assert(event == q0[n]);
            if filter.filter(&event) {
                let ghost qrest = self.events@;
                let ghost sk = skipped_events@;
                while skipped_events.len() > 0
                    invariant
                        self.has_source() == old(self).has_source(),
                        self.source_pending() == old(self).source_pending(),
                        self.events@ + skipped_events@ == qrest + sk,
                    decreases skipped_events@.len(),
                {
                    let ghost sk2 = skipped_events@;
                    if let Some(event2) = skipped_events.pop_front() {
                        self.events.push_back(event2);
                        proof {
                            assert(sk2 =~= seq![sk2[0]] + sk2.skip(1));
                        }
                    }
                }
                proof {
                    assert(self.events@ =~= qrest + sk);
                    assert(q0.skip(n).skip(1) =~= q0.skip(n + 1));
                    assert(self.events@ =~= q0.skip(n + 1) + s0 + q0.take(n));
                    assert(is_first_match(q0, *filter, n));
                }
                return Some(event);
            } else {
                skipped_events.push_back(event);
                proof {
                    assert(q0.skip(n).skip(1) =~= q0.skip(n + 1));
                    assert((s0 + q0.take(n)) + seq![q0[n]] =~= s0 + q0.take(n + 1));
                    n = n + 1;
                }
            }
        }
        proof {
            assert(q0.skip(n).len() == 0);
            assert(q0.take(n) =~= q0);
        }
        None
    }

    /// Blocking filtered consume: return the earliest available event that
    /// `filter` selects, removing it. Events inspected and rejected on the
    /// way are kept, reappended to the queue in original relative order
    /// behind any events read from the source meanwhile. Blocks (polls with
    /// no deadline) until a match is known to be queued.
    pub fn read<F: Filter>(&mut self, filter: &F) -> (r: Result<InternalEvent, ErrorKind>)
        ensures
            final(self).has_source() == old(self).has_source(),
            queue_has_match(old(self).queue(), *filter) ==> r is Ok,
            r is Ok ==> filter.wants(r->Ok_0) && exists|j: int|
                read_delivered(*old(self), *final(self), *filter, r->Ok_0, j),
            r is Err ==> {
                &&& !queue_has_match(old(self).queue(), *filter)
                &&& final(self).queue() == Seq::<InternalEvent>::empty()
                &&& exists|k: int|
                    0 <= k <= old(self).source_pending().len() && all_fail_before(
                        old(self).source_pending(),
                        *filter,
                        k,
                    ) && final(self).source_pending() == old(self).source_pending().skip(k)
            },
            !old(self).has_source() && !queue_has_match(old(self).queue(), *filter) ==> r is Err
                && r->Err_0 is InitializationFailed,
            r is Err && old(self).has_source() ==> final(self).source_failed() == Some(r->Err_0),
    {
        let ghost q0 = self.queue();
        let ghost e0 = self.source_pending();
        let ghost a = q0 + e0;
        let mut skipped_events: VecDeque<InternalEvent> = VecDeque::new();

        match self.take_first_match(filter, &mut skipped_events) {
            Some(event) => {
                proof {
                    let j = choose|j: int|
                        is_first_match(q0, *filter, j) && event == q0[j] && self.queue()
                            == q0.skip(j + 1) + Seq::<InternalEvent>::empty() + q0.take(j);
                    assert(a[j] == q0[j]);
                    assert(is_first_match(a, *filter, j));
                    assert(q0.skip(j + 1) + Seq::<InternalEvent>::empty() + q0.take(j) =~= q0.skip(
                        j + 1,
                    ) + q0.take(j));
                    assert(read_delivered(*old(self), *self, *filter, event, j));
                }
                return Ok(event);
            },
            None => {},
        }
        assert(self.queue().len() == 0);
        assert(forall|i: int| 0 <= i < q0.len() ==> !filter.wants(q0[i]));

        let polled = match self.poll(None, filter) {
            Ok(polled) => polled,
            Err(error) => {
                return Err(error);
            },
        };
        proof {
            if !polled {
                assert(false);
            }
        }

        let ghost q1 = self.queue();
        let ghost k = choose|k: int|
            is_first_match(e0, *filter, k) && q1 == seq![e0[k]] + Seq::<InternalEvent>::empty()
                + e0.take(k) && self.source_pending() == e0.skip(k + 1);
        proof {
            assert(q1[0] == e0[k]);
            assert(filter.wants(q1[0]));
        }

        match self.take_first_match(filter, &mut skipped_events) {
            Some(event) => {
                proof {
                    let j1 = choose|j: int|
                        is_first_match(q1, *filter, j) && event == q1[j] && self.queue()
                            == q1.skip(j + 1) + q0 + q1.take(j);
                    assert(j1 == 0);
                    let j = q0.len() as int + k;
                    assert(a[j] == e0[k]);
                    assert(forall|i: int| 0 <= i < q0.len() ==> a[i] == q0[i]);
                    assert(forall|i: int|
                        q0.len() <= i < j ==> a[i] == e0[i - q0.len()] && !filter.wants(a[i]));
                    assert(is_first_match(a, *filter, j));
                    assert(q1.skip(1) =~= (seq![e0[k]] + Seq::<InternalEvent>::empty() + e0.take(
                        k,
                    )).skip(1));
                    assert(q1.skip(1) =~= e0.take(k));
                    assert(q1.take(0) =~= Seq::<InternalEvent>::empty());
                    assert(self.queue() =~= e0.take(k) + q0);
                    assert(read_delivered(*old(self), *self, *filter, event, j));
                }
                Ok(event)
            },
            None => {
                proof {
                    assert(!filter.wants(q1[0]));
                    assert(false);
                }
                unreached()
            },
        }
    }
}

/// Reads `Event`s: a thin adapter that asks an internal reader for events
/// matching "this is a public event", unwraps them, and buffers the
/// already-converted events for callers.
pub struct EventReader {
    events: VecDeque<Event>,
}

impl Default for EventReader {
    /// An adapter with nothing buffered.
    fn default() -> (r: Self)
        ensures
            r.queue() == Seq::<Event>::empty(),
    {
        EventReader { events: VecDeque::new() }
    }
}

impl EventReader {
    /// The already-unwrapped events buffered for callers, front to back.
    pub closed spec fn queue(&self) -> Seq<Event> {
        self.events@
    }

    /// Whether a public event is available within `timeout`: true at once
    /// when one is already buffered; otherwise one matching internal event is
    /// read through `reader` and buffered. The event buffered is the earliest
    /// public event `reader` had available.
    pub fn poll<S: EventSource>(
        &mut self,
        reader: &mut InternalEventReader<S>,
        timeout: Option<Duration>,
    ) -> (r: Result<bool, ErrorKind>)
        ensures
            final(reader).has_source() == old(reader).has_source(),
            r == Ok::<bool, ErrorKind>(true) ==> final(self).queue().len() > 0,
            old(self).queue().len() > 0 ==> r == Ok::<bool, ErrorKind>(true) && *final(self)
                == *old(self) && *final(reader) == *old(reader),
            r == Ok::<bool, ErrorKind>(false) ==> {
                &&& *final(self) == *old(self)
                &&& timeout is Some
                &&& !queue_has_match(old(reader).queue(), EventFilter)
                &&& exists|k: int|
                    0 <= k <= old(reader).source_pending().len() && all_fail_before(
                        old(reader).source_pending(),
                        EventFilter,
                        k,
                    ) && final(reader).queue() == old(reader).queue() + old(
                        reader,
                    ).source_pending().take(k) && final(reader).source_pending() == old(
                        reader,
                    ).source_pending().skip(k)
            },
            r == Ok::<bool, ErrorKind>(true) && old(self).queue().len() == 0 ==> exists|j: int|
                {
                    &&& is_first_match(old(reader).available(), EventFilter, j)
                    &&& old(reader).available()[j] is Event
                    &&& final(self).queue() == old(self).queue() + seq![
                        old(reader).available()[j]->Event_0,
                    ]
                },
            old(self).queue().len() == 0 && queue_has_match(old(reader).queue(), EventFilter) ==> r
                == Ok::<bool, ErrorKind>(true),
            old(self).queue().len() == 0 && !old(reader).has_source() && !queue_has_match(
                old(reader).queue(),
                EventFilter,
            ) ==> r is Err && r->Err_0 is InitializationFailed,
            r is Err ==> *final(self) == *old(self),
            r is Err && old(reader).has_source() ==> final(reader).source_failed() == Some(
                r->Err_0,
            ),
    {
        if self.events.len() > 0 {
            return Ok(true);
        }
        let polled = match reader.poll(timeout, &EventFilter) {
            Ok(polled) => polled,
            Err(error) => {
                return Err(error);
            },
        };
        if polled {
            let ghost mid = *reader;
            match reader.read(&EventFilter) {
                Ok(internal) => {
                    proof {
                        let j1 = choose|j: int|
                            read_delivered(mid, *reader, EventFilter, internal, j);
                        assert(EventFilter.wants(mid.available()[j1]));
                    }
                    match internal {
                        InternalEvent::Event(event) => {
                            self.events.push_back(event);
                            proof {
                                let j1 = choose|j: int|
                                    read_delivered(mid, *reader, EventFilter, internal, j);
                                if queue_has_match(old(reader).queue(), EventFilter) {
                                    assert(mid == *old(reader));
                                    assert(is_first_match(old(reader).available(), EventFilter, j1)
                                        && old(reader).available()[j1] is Event && self.queue()
                                        == old(self).queue() + seq![
                                        old(reader).available()[j1]->Event_0,
                                    ]);
                                } else {
                                    let k = choose|k: int|
                                        is_first_match(
                                            old(reader).source_pending(),
                                            EventFilter,
                                            k,
                                        ) && mid.queue() == seq![old(reader).source_pending()[k]]
                                            + old(reader).queue() + old(
                                            reader,
                                        ).source_pending().take(k) && mid.source_pending() == old(
                                            reader,
                                        ).source_pending().skip(k + 1);
                                    let j = old(reader).queue().len() as int + k;
                                    assert(mid.queue()[0] == old(reader).source_pending()[k]);
                                    assert(EventFilter.wants(mid.available()[0]));
                                    assert(j1 == 0);
                                    assert(internal == mid.queue()[0]);
                                    assert(internal == old(reader).available()[j]);
                                    assert(forall|i: int|
                                        0 <= i < old(reader).queue().len() ==> old(
                                            reader,
                                        ).available()[i] == old(reader).queue()[i]);
                                    assert(forall|i: int|
                                        old(reader).queue().len() <= i < j ==> old(
                                            reader,
                                        ).available()[i] == old(reader).source_pending()[i - old(
                                            reader,
                                        ).queue().len()]);
                                    assert(is_first_match(old(reader).available(), EventFilter, j)
                                        && old(reader).available()[j] is Event && self.queue()
                                        == old(self).queue() + seq![
                                        old(reader).available()[j]->Event_0,
                                    ]);
                                }
                            }
                            Ok(true)
                        },
                        _ => unreached(),
                    }
                },
                Err(_) => unreached(),
            }
        } else {
            Ok(false)
        }
    }

    /// Pop the next buffered public event, polling with no deadline to
    /// refill the buffer when it is empty.
    pub fn read<S: EventSource>(&mut self, reader: &mut InternalEventReader<S>) -> (r: Result<
        Event,
        ErrorKind,
    >)
        ensures
            old(self).queue().len() > 0 ==> r is Ok && r->Ok_0 == old(self).queue()[0]
                && final(self).queue() == old(self).queue().skip(1) && *final(reader) == *old(
                reader,
            ),
            r is Ok && old(self).queue().len() == 0 ==> final(self).queue()
                == Seq::<Event>::empty() && exists|j: int|
                {
                    &&& is_first_match(old(reader).available(), EventFilter, j)
                    &&& old(reader).available()[j] is Event
                    &&& r->Ok_0 == old(reader).available()[j]->Event_0
                },
            old(self).queue().len() == 0 && queue_has_match(old(reader).queue(), EventFilter) ==> r
                is Ok,
            old(self).queue().len() == 0 && !old(reader).has_source() && !queue_has_match(
                old(reader).queue(),
                EventFilter,
            ) ==> r is Err && r->Err_0 is InitializationFailed,
            r is Err ==> old(self).queue().len() == 0 && *final(self) == *old(self),
            r is Err && old(reader).has_source() ==> final(reader).source_failed() == Some(
                r->Err_0,
            ),
    {
        if self.events.len() > 0 {
            match self.events.pop_front() {
                Some(event) => {
                    return Ok(event);
                },
                None => {
                    return unreached();
                },
            }
        }
        let polled = match self.poll(reader, None) {
            Ok(polled) => polled,
            Err(error) => {
                return Err(error);
            },
        };
        proof {
            if !polled {
                assert(false);
            }
        }
        match self.events.pop_front() {
            Some(event) => Ok(event),
            None => unreached(),
        }
    }
}

} // verus!
