//! The ordering and content guarantees of a whole run of a reader, stated
//! over the trace of events it emits when its buffer yields a given
//! sequence of results.

use vstd::prelude::*;

use crate::event::{
    event_content, event_of_read, lemma_event_of_read_content, read_content, ReadResult,
    StreamEvent,
};

verus! {

/// The events a streaming reader emits for a sequence of buffer results,
/// one per result, in order.
pub open spec fn stream_events(reads: Seq<ReadResult>) -> Seq<StreamEvent>
    decreases reads.len(),
{
    if reads.len() == 0 {
        Seq::empty()
    } else {
        seq![event_of_read(reads.first())] + stream_events(reads.drop_first())
    }
}

/// The full event trace of a run whose buffer yielded `reads`: `Started`
/// first, then one event per buffer result.
pub open spec fn event_trace(reads: Seq<ReadResult>) -> Seq<StreamEvent> {
    seq![StreamEvent::Started] + stream_events(reads)
}

/// All line content of an event sequence, concatenated in event order.
pub open spec fn events_content(events: Seq<StreamEvent>) -> Seq<Seq<char>>
    decreases events.len(),
{
    if events.len() == 0 {
        Seq::empty()
    } else {
        event_content(events.first()) + events_content(events.drop_first())
    }
}

/// All line content of a sequence of buffer results, concatenated in order.
pub open spec fn reads_content(reads: Seq<ReadResult>) -> Seq<Seq<char>>
    decreases reads.len(),
{
    if reads.len() == 0 {
        Seq::empty()
    } else {
        read_content(reads.first()) + reads_content(reads.drop_first())
    }
}

/// The buffer was used as its contract demands: once it reports
/// end-of-input it is not invoked again, so `Eof` can only be the last
/// result.
pub open spec fn reads_wf(reads: Seq<ReadResult>) -> bool {
    forall|i: int| 0 <= i < reads.len() && reads[i] is Eof ==> i == reads.len() - 1
}

/// One event per buffer result.
pub proof fn lemma_stream_events_len(reads: Seq<ReadResult>)
    ensures
        stream_events(reads).len() == reads.len(),
    decreases reads.len(),
{
    if reads.len() > 0 {
        lemma_stream_events_len(reads.drop_first());
    }
}

/// The event at each streaming position is the image of the buffer result
/// at that position.
pub proof fn lemma_stream_events_index(reads: Seq<ReadResult>, i: int)
    requires
        0 <= i < reads.len(),
    ensures
        stream_events(reads).len() == reads.len(),
        stream_events(reads)[i] == event_of_read(reads[i]),
    decreases reads.len(),
{
    lemma_stream_events_len(reads);
    if i > 0 {
        lemma_stream_events_index(reads.drop_first(), i - 1);
    }
}

/// The first event of every run is `Started`, and it carries no line
/// content: it is produced before any bytes are read from the process.
pub proof fn lemma_first_event_started(reads: Seq<ReadResult>)
    ensures
        event_trace(reads).len() == reads.len() + 1,
        event_trace(reads).first() == StreamEvent::Started,
        event_content(event_trace(reads).first()).len() == 0,
{
    lemma_stream_events_len(reads);
}

/// The concatenation of all line content in the event trace, in event
/// order and preserving batch order, equals the line content the buffer
/// extracted from the process's output.
pub proof fn lemma_content_preserved(reads: Seq<ReadResult>)
    ensures
        events_content(event_trace(reads)) == reads_content(reads),
{
    let tr = event_trace(reads);
    lemma_stream_events_len(reads);
    assert(tr.first() == StreamEvent::Started);
    assert(tr.drop_first() =~= stream_events(reads));
    assert(events_content(tr) == event_content(StreamEvent::Started) + events_content(
        stream_events(reads),
    ));
    lemma_streaming_content_preserved(reads);
    assert(events_content(tr) =~= reads_content(reads));
}

/// The streaming part of the trace carries exactly the buffer's content.
pub proof fn lemma_streaming_content_preserved(reads: Seq<ReadResult>)
    ensures
        events_content(stream_events(reads)) == reads_content(reads),
    decreases reads.len(),
{
    if reads.len() == 0 {
    } else {
        let es = stream_events(reads);
        lemma_stream_events_len(reads);
        assert(es.first() == event_of_read(reads.first()));
        assert(es.drop_first() =~= stream_events(reads.drop_first()));
        lemma_event_of_read_content(reads.first());
        lemma_streaming_content_preserved(reads.drop_first());
    }
}

/// `Ended` appears in a well-formed trace only as its very last event, at
/// most once, and exactly when the buffer genuinely reached end-of-input;
/// no event that carries line content follows it.
pub proof fn lemma_ended_terminal(reads: Seq<ReadResult>)
    requires
        reads_wf(reads),
    ensures
        forall|i: int|
            0 <= i < event_trace(reads).len() && #[trigger] event_trace(reads)[i] is Ended ==> i
                == event_trace(reads).len() - 1,
        reads.len() > 0 && reads.last() is Eof ==> event_trace(reads).last() is Ended,
        forall|i: int, j: int|
            0 <= i < j < event_trace(reads).len() && #[trigger] event_trace(reads)[i] is Ended
                ==> event_content(#[trigger] event_trace(reads)[j]).len() == 0,
{
    let tr = event_trace(reads);
    lemma_stream_events_len(reads);
    assert forall|i: int| 0 <= i < tr.len() && #[trigger] tr[i] is Ended implies i == tr.len()
        - 1 by {
        assert(tr[0] == StreamEvent::Started);
        if i > 0 {
            lemma_stream_events_index(reads, i - 1);
            assert(event_of_read(reads[i - 1]) is Ended ==> reads[i - 1] is Eof);
        }
    }
    if reads.len() > 0 && reads.last() is Eof {
        lemma_stream_events_index(reads, reads.len() - 1);
    }
}

} // verus!
