//! Tests of the event pipeline: filters, the poll timeout, the scripted
//! event source, and the two readers.

use std::time::Duration;

use termcore::error::ErrorKind;
use termcore::event::filter::{CursorPositionFilter, EventFilter, Filter, InternalEventFilter};
use termcore::event::read::{EventReader, InternalEventReader};
use termcore::event::source::ScriptedEventSource;
use termcore::event::timeout::PollTimeout;
use termcore::event::{Event, InternalEvent};

const BUDGET: usize = usize::MAX;

fn reader_with(events: Vec<InternalEvent>) -> InternalEventReader<ScriptedEventSource> {
    InternalEventReader::new(ScriptedEventSource::new(events, BUDGET))
}

#[test]
fn event_filter_selects_only_public_events() {
    assert!(EventFilter.filter(&InternalEvent::Event(Event::Key(3))));
    assert!(EventFilter.filter(&InternalEvent::Event(Event::Resize(2, 2))));
    assert!(!EventFilter.filter(&InternalEvent::CursorPosition(1, 1)));

    assert!(!CursorPositionFilter.filter(&InternalEvent::Event(Event::Key(3))));
    assert!(CursorPositionFilter.filter(&InternalEvent::CursorPosition(1, 1)));

    assert!(InternalEventFilter.filter(&InternalEvent::Event(Event::Key(3))));
    assert!(InternalEventFilter.filter(&InternalEvent::CursorPosition(1, 1)));
}

#[test]
fn poll_timeout_without_deadline_never_elapses() {
    let timeout = PollTimeout::new(None);
    assert!(!timeout.elapsed());
    assert!(!timeout.elapsed());
}

#[test]
fn poll_timeout_with_zero_deadline_elapses_at_once() {
    let timeout = PollTimeout::new(Some(Duration::from_millis(0)));
    assert!(timeout.elapsed());
}

#[test]
fn scripted_source_reports_initialization_error_when_absent() {
    let mut reader: InternalEventReader<ScriptedEventSource> =
        InternalEventReader::without_source();
    let polled = reader.poll(Some(Duration::from_millis(1)), &EventFilter);
    assert!(matches!(polled, Err(ErrorKind::InitializationFailed)));
    let read = reader.read(&EventFilter);
    assert!(matches!(read, Err(ErrorKind::InitializationFailed)));
}

#[test]
fn poll_skips_non_matching_event_and_queues_both_in_order() {
    // queue is empty; the source yields A (fails the filter), then B
    // (passes). poll must report true and leave the queue [B, A].
    let a = InternalEvent::CursorPosition(1, 1);
    let b = InternalEvent::Event(Event::Key(7));
    let mut reader = reader_with(vec![a, b]);

    let polled = reader.poll(Some(Duration::from_millis(500)), &EventFilter).unwrap();
    assert!(polled);
    assert_eq!(reader.buffered_len(), 2);

    // a read with the same filter consumes B, leaving [A]
    let first = reader.read(&EventFilter).unwrap();
    assert_eq!(first, b);
    assert_eq!(reader.buffered_len(), 1);

    // what is left at the front is A
    let second = reader.read(&InternalEventFilter).unwrap();
    assert_eq!(second, a);
    assert_eq!(reader.buffered_len(), 0);
}

#[test]
fn poll_is_idempotent_while_the_match_stays_buffered() {
    let b = InternalEvent::Event(Event::Key(9));
    let mut reader = reader_with(vec![b]);

    assert!(reader.poll(Some(Duration::from_millis(100)), &EventFilter).unwrap());
    assert_eq!(reader.buffered_len(), 1);
    assert!(reader.poll(Some(Duration::from_millis(100)), &EventFilter).unwrap());
    assert!(reader.poll(None, &EventFilter).unwrap());
    assert_eq!(reader.buffered_len(), 1);

    // only a read with a satisfying filter removes the event
    assert_eq!(reader.read(&EventFilter).unwrap(), b);
    assert_eq!(reader.buffered_len(), 0);
}

#[test]
fn poll_with_deadline_and_no_match_returns_false_after_the_deadline() {
    // a source that never produces a matching event: only cursor reports
    let a = InternalEvent::CursorPosition(2, 3);
    let mut reader = reader_with(vec![a]);

    let started = std::time::Instant::now();
    let polled = reader.poll(Some(Duration::from_millis(50)), &EventFilter).unwrap();
    assert!(!polled);
    assert!(started.elapsed() >= Duration::from_millis(50));
    // the non-matching event was not lost: it is buffered in order
    assert_eq!(reader.buffered_len(), 1);
    assert_eq!(reader.read(&InternalEventFilter).unwrap(), a);
}

#[test]
fn read_never_returns_an_event_that_fails_the_filter() {
    let mut reader = reader_with(vec![
        InternalEvent::CursorPosition(1, 1),
        InternalEvent::Event(Event::Key(1)),
        InternalEvent::CursorPosition(2, 2),
        InternalEvent::Event(Event::Resize(3, 4)),
    ]);
    let first = reader.read(&EventFilter).unwrap();
    assert!(EventFilter.filter(&first));
    assert_eq!(first, InternalEvent::Event(Event::Key(1)));
    let second = reader.read(&EventFilter).unwrap();
    assert!(EventFilter.filter(&second));
    assert_eq!(second, InternalEvent::Event(Event::Resize(3, 4)));
}

#[test]
fn two_filters_share_one_stream_without_loss_or_duplication() {
    // delivery keeps the stream's relative order for each filter, drops
    // nothing and delivers nothing twice
    let k1 = InternalEvent::Event(Event::Key(1));
    let c1 = InternalEvent::CursorPosition(5, 6);
    let k2 = InternalEvent::Event(Event::Key(2));
    let mut reader = reader_with(vec![c1, k1, k2]);

    assert_eq!(reader.read(&EventFilter).unwrap(), k1);
    assert_eq!(reader.read(&CursorPositionFilter).unwrap(), c1);
    assert_eq!(reader.read(&EventFilter).unwrap(), k2);
    assert_eq!(reader.buffered_len(), 0);
}

#[test]
fn wake_interrupts_a_blocking_read_promptly() {
    // a reader whose source will never produce a matching event, woken
    // before the blocking read: the read returns promptly instead of
    // hanging
    let mut reader = reader_with(vec![]);
    reader.wake();
    let started = std::time::Instant::now();
    let read = reader.read(&EventFilter);
    assert!(matches!(read, Err(ErrorKind::Interrupted)));
    assert!(started.elapsed() < Duration::from_secs(5));
}

#[test]
fn event_reader_unwraps_and_buffers_public_events() {
    let mut internal = reader_with(vec![
        InternalEvent::CursorPosition(9, 9),
        InternalEvent::Event(Event::Key(42)),
    ]);
    let mut events = EventReader::default();

    assert!(events.poll(&mut internal, Some(Duration::from_millis(200))).unwrap());
    // polling again still reports true without consuming
    assert!(events.poll(&mut internal, Some(Duration::from_millis(200))).unwrap());
    assert_eq!(events.read(&mut internal).unwrap(), Event::Key(42));

    // the cursor report was not lost: it is still available internally
    assert_eq!(
        internal.read(&CursorPositionFilter).unwrap(),
        InternalEvent::CursorPosition(9, 9)
    );
}

#[test]
fn event_reader_succeeds_without_waiting_when_a_match_is_buffered() {
    let mut internal = reader_with(vec![InternalEvent::Event(Event::Key(5))]);
    // buffer the matching event inside the internal reader first
    assert!(internal.poll(Some(Duration::from_millis(100)), &EventFilter).unwrap());
    assert_eq!(internal.buffered_len(), 1);

    // with the match already buffered, success is owed even with a zero
    // deadline: no wait is reached
    let mut events = EventReader::default();
    assert!(events.poll(&mut internal, Some(Duration::from_millis(0))).unwrap());
    assert_eq!(events.read(&mut internal).unwrap(), Event::Key(5));
}

#[test]
fn event_reader_reports_the_initialization_failure() {
    let mut internal: InternalEventReader<ScriptedEventSource> =
        InternalEventReader::without_source();
    let mut events = EventReader::default();
    let polled = events.poll(&mut internal, Some(Duration::from_millis(1)));
    assert!(matches!(polled, Err(ErrorKind::InitializationFailed)));
    let read = events.read(&mut internal);
    assert!(matches!(read, Err(ErrorKind::InitializationFailed)));
}

#[test]
fn event_reader_poll_reports_false_when_nothing_matches() {
    let mut internal = reader_with(vec![InternalEvent::CursorPosition(1, 2)]);
    let mut events = EventReader::default();
    assert!(!events.poll(&mut internal, Some(Duration::from_millis(20))).unwrap());
}

#[test]
fn error_descriptions_name_the_failure() {
    assert_eq!(
        ErrorKind::InitializationFailed.description(),
        "Failed to initialize input reader"
    );
    assert!(!ErrorKind::Interrupted.description().is_empty());
    assert!(!ErrorKind::IoFailed.description().is_empty());
}
