//! Delivery-order laws of the filtered reader: what two successive filtered
//! reads over one event stream deliver, and what they leave behind.

use vstd::prelude::*;

use crate::event::filter::Filter;
use crate::event::read::{is_first_match, read_delivered, InternalEventReader};
use crate::event::source::EventSource;
use crate::event::InternalEvent;

verus! {

/// Law: a read on a reader whose queue is empty delivers the earliest event
/// of the source's stream that the filter selects, and leaves available
/// exactly that stream with the delivered position removed, in original
/// order. By induction over any sequence of such reads, every event is
/// delivered by at most one read, none is lost, and for any filter the
/// events it is handed appear in their original production order.
pub proof fn lemma_read_leaves_stream_minus_delivered<S: EventSource, F: Filter>(
    pre: InternalEventReader<S>,
    post: InternalEventReader<S>,
    f: F,
    event: InternalEvent,
    j: int,
)
    requires
        pre.queue().len() == 0,
        read_delivered(pre, post, f, event, j),
    ensures
        0 <= j < pre.available().len(),
        event == pre.available()[j],
        f.wants(event),
        forall|i: int| 0 <= i < j ==> !f.wants(pre.available()[i]),
        post.available() == pre.available().remove(j),
{
    assert(pre.available() =~= pre.source_pending());
    assert(post.available() =~= pre.available().remove(j));
}

/// Law: whatever the queue and the stream held, a read removes exactly the
/// delivered event: the events available afterwards are, as a multiset, the
/// prior ones minus that one occurrence — nothing else is lost and nothing
/// is duplicated, whichever filters other calls used before.
pub proof fn lemma_read_loses_nothing<S: EventSource, F: Filter>(
    pre: InternalEventReader<S>,
    post: InternalEventReader<S>,
    f: F,
    event: InternalEvent,
    j: int,
)
    requires
        read_delivered(pre, post, f, event, j),
    ensures
        post.available().to_multiset() == pre.available().to_multiset().remove(event),
{
    broadcast use vstd::seq_lib::group_to_multiset_ensures;

    let q = pre.queue();
    let e = pre.source_pending();
    let a = pre.available();
    assert(event == a[j]);
    if j < q.len() {
        assert(a.remove(j) =~= (q.take(j) + q.skip(j + 1)) + e);
        vstd::seq_lib::lemma_seq_union_to_multiset_commutative(q.skip(j + 1), q.take(j));
        vstd::seq_lib::lemma_multiset_commutative(q.skip(j + 1) + q.take(j), e);
        vstd::seq_lib::lemma_multiset_commutative(q.take(j) + q.skip(j + 1), e);
        assert(post.available().to_multiset() == a.remove(j).to_multiset());
    } else {
        let i = j - q.len();
        assert(a.remove(j) =~= (q + e.take(i)) + e.skip(i + 1));
        vstd::seq_lib::lemma_seq_union_to_multiset_commutative(e.take(i), q);
        vstd::seq_lib::lemma_multiset_commutative(e.take(i) + q, e.skip(i + 1));
        vstd::seq_lib::lemma_multiset_commutative(q + e.take(i), e.skip(i + 1));
        assert(post.available().to_multiset() == a.remove(j).to_multiset());
    }
    assert(a.remove(j).to_multiset() =~= a.to_multiset().remove(a[j]));
}

/// Law: feed one event stream to a reader whose queue starts empty and read
/// with two filters in turn. Each read delivers the earliest event its
/// filter selects among those not yet delivered: the two delivered events
/// sit at distinct positions of the stream (nothing is delivered twice), and
/// what remains afterwards is exactly the stream with those two positions
/// removed, in original relative order (nothing is dropped or reordered).
///
/// `j1` is the position the first read delivers from, per `read_delivered`
/// on an empty queue; the events still available to the second read are then
/// `stream` with position `j1` removed, and `j2` is the position the second
/// read delivers from within those.
pub proof fn lemma_two_reads_deliver_in_order<F1: Filter, F2: Filter>(
    stream: Seq<InternalEvent>,
    f1: F1,
    f2: F2,
    j1: int,
    j2: int,
)
    requires
        is_first_match(stream, f1, j1),
        is_first_match(stream.take(j1) + stream.skip(j1 + 1), f2, j2),
    ensures
        ({
            let rest = stream.take(j1) + stream.skip(j1 + 1);
            let p = if j2 < j1 {
                j2
            } else {
                j2 + 1
            };
            &&& 0 <= p < stream.len()
            &&& p != j1
            &&& rest[j2] == stream[p]
            &&& f2.wants(stream[p])
            &&& forall|q: int| 0 <= q < p && q != j1 ==> !f2.wants(stream[q])
            &&& rest.take(j2) + rest.skip(j2 + 1) == stream.remove(j1).remove(j2)
        }),
{
    let rest = stream.take(j1) + stream.skip(j1 + 1);
    let p = if j2 < j1 {
        j2
    } else {
        j2 + 1
    };
    assert(rest.len() == stream.len() - 1);
    assert forall|q: int| 0 <= q < rest.len() implies rest[q] == (if q < j1 {
        stream[q]
    } else {
        stream[q + 1]
    }) by {}
    assert(rest[j2] == stream[p]);
    assert forall|q: int| 0 <= q < p && q != j1 implies !f2.wants(stream[q]) by {
        if q < j1 {
            assert(stream[q] == rest[q]);
            assert(q < j2);
        } else {
            assert(stream[q] == rest[q - 1]);
            assert(q - 1 < j2);
        }
    }
    assert(stream.remove(j1) =~= rest);
    assert(rest.take(j2) + rest.skip(j2 + 1) =~= rest.remove(j2));
}

} // verus!

