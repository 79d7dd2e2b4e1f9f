//! The stream event model: the closed set of lifecycle signals a
//! line-producing source emits, and the result type of the line-extraction
//! buffer it consumes.

use vstd::prelude::*;

verus! {

/// A lifecycle signal emitted by a line-producing source.
///
/// Over the life of one source the signals are totally ordered: `Started`
/// first, then any number of `Line` / `Lines` in output order, then `Ended`.
#[derive(Debug)]
pub enum StreamEvent {
    /// Emitted exactly once, as the very first event, before any output is read.
    Started,
    /// One line of output, newline-stripped.
    Line(String),
    /// An ordered batch of lines; order within the batch matches output order.
    Lines(Vec<String>),
    /// Terminal: the output stream reached end-of-input.
    Ended,
}

/// What the line-extraction buffer yields on one invocation over the
/// process's output pipe.
#[derive(Debug)]
pub enum ReadResult {
    /// The underlying byte source is exhausted; a well-behaved caller does
    /// not invoke the buffer again.
    Eof,
    /// A single newline-stripped line.
    Line(String),
    /// Several lines surfaced at once, in output order.
    Batch(Vec<String>),
}

/// The views of a sequence of strings, in order.
pub open spec fn strings_view(ls: Seq<String>) -> Seq<Seq<char>> {
    ls.map_values(|s: String| s@)
}

/// The line content an event carries, in event order.
pub open spec fn event_content(e: StreamEvent) -> Seq<Seq<char>> {
    match e {
        StreamEvent::Started => Seq::empty(),
        StreamEvent::Line(l) => seq![l@],
        StreamEvent::Lines(ls) => strings_view(ls@),
        StreamEvent::Ended => Seq::empty(),
    }
}

/// The line content a buffer result carries.
pub open spec fn read_content(r: ReadResult) -> Seq<Seq<char>> {
    match r {
        ReadResult::Eof => Seq::empty(),
        ReadResult::Line(l) => seq![l@],
        ReadResult::Batch(ls) => strings_view(ls@),
    }
}

/// The event a streaming reader emits for one buffer result: `Eof` maps to
/// `Ended`, a single line to `Line`, a batch to `Lines` with its order kept.
pub open spec fn event_of_read(r: ReadResult) -> StreamEvent {
    match r {
        ReadResult::Eof => StreamEvent::Ended,
        ReadResult::Line(l) => StreamEvent::Line(l),
        ReadResult::Batch(ls) => StreamEvent::Lines(ls),
    }
}

/// Mapping a buffer result onto an event loses no line content and keeps order.
pub proof fn lemma_event_of_read_content(r: ReadResult)
    ensures
        event_content(event_of_read(r)) == read_content(r),
{
}

impl StreamEvent {
    /// Whether this is the `Started` signal.
    pub fn is_started(&self) -> (r: bool)
        ensures
            r == (self is Started),
    {
        match self {
            StreamEvent::Started => true,
            _ => false,
        }
    }

    /// Whether this is the terminal `Ended` signal.
    pub fn is_ended(&self) -> (r: bool)
        ensures
            r == (self is Ended),
    {
        match self {
            StreamEvent::Ended => true,
            _ => false,
        }
    }

    /// The lines this event carries, in order: none for `Started` and
    /// `Ended`, one for `Line`, the whole batch for `Lines`.
    pub fn into_content_lines(self) -> (r: Vec<String>)
        ensures
            strings_view(r@) == event_content(self),
    {
        let ghost orig = self;
        match self {
            StreamEvent::Started => {
                let r: Vec<String> = Vec::new();
                proof {
                    assert(strings_view(r@) =~= event_content(orig));
                }
                r
            }
            StreamEvent::Ended => {
                let r: Vec<String> = Vec::new();
                proof {
                    assert(strings_view(r@) =~= event_content(orig));
                }
                r
            }
            StreamEvent::Line(l) => {
                let mut r: Vec<String> = Vec::new();
                r.push(l);
                proof {
                    assert(strings_view(r@) =~= event_content(orig));
                }
                r
            }
            StreamEvent::Lines(ls) => ls,
        }
    }
}

} // verus!
