//! The event-producing state machine of a command-backed reader.
//!
//! A reader moves `NotStarted -> Streaming -> Ended`, and no transition
//! leaves `Ended`. The first call produces `Started` and touches no output;
//! every later call maps one buffer result onto an event; end-of-input is
//! terminal, and the documented policy for calls after it is to repeat
//! `Ended` without consulting the buffer again.

use vstd::prelude::*;

use crate::event::{event_of_read, ReadResult, StreamEvent};

verus! {

/// The phase a reader is in; no transition leaves `Ended`.
pub enum LifecyclePhase {
    NotStarted,
    Streaming,
    Ended,
}

/// The lifecycle state a command-backed reader carries between calls:
/// whether `Started` has been emitted (the readiness flag, flipped once by
/// the first call) and whether end-of-input has been reached.
pub struct ReaderState {
    ready: bool,
    done: bool,
}

impl ReaderState {
    /// Whether `Started` has already been emitted.
    pub closed spec fn spec_ready(self) -> bool {
        self.ready
    }

    /// Whether end-of-input has been reached.
    pub closed spec fn spec_done(self) -> bool {
        self.done
    }

    /// The phase the flags encode.
    pub open spec fn phase(self) -> LifecyclePhase {
        if !self.spec_ready() {
            LifecyclePhase::NotStarted
        } else if !self.spec_done() {
            LifecyclePhase::Streaming
        } else {
            LifecyclePhase::Ended
        }
    }

    /// End-of-input can only be reached after `Started` was emitted.
    pub open spec fn wf(self) -> bool {
        self.spec_done() ==> self.spec_ready()
    }

    /// A freshly constructed reader has emitted nothing.
    pub fn new() -> (r: ReaderState)
        ensures
            !r.spec_ready(),
            !r.spec_done(),
            r.phase() is NotStarted,
            r.wf(),
    {
        ReaderState { ready: false, done: false }
    }

    /// Whether the next call must produce `Started` (and so needs no I/O).
    pub fn needs_start(&self) -> (r: bool)
        ensures
            r == !self.spec_ready(),
    {
        !self.ready
    }

    /// Whether the terminal state has been reached.
    pub fn is_done(&self) -> (r: bool)
        ensures
            r == self.spec_done(),
    {
        self.done
    }

    /// The `NotStarted -> Streaming` transition: produces `Started`,
    /// consumes no buffer result, and flips the readiness flag.
    pub fn start(&mut self) -> (ev: StreamEvent)
        requires
            old(self).wf(),
            old(self).phase() is NotStarted,
        ensures
            final(self).spec_ready(),
            !final(self).spec_done(),
            final(self).phase() is Streaming,
            final(self).wf(),
            ev == StreamEvent::Started,
    {
        self.ready = true;
        StreamEvent::Started
    }

    /// A `Streaming` step: maps one buffer result onto the event it stands
    /// for, and records end-of-input when the buffer reports it.
    pub fn absorb(&mut self, r: ReadResult) -> (ev: StreamEvent)
        requires
            old(self).phase() is Streaming,
        ensures
            final(self).spec_ready(),
            final(self).spec_done() == (r is Eof),
            final(self).phase() == (if r is Eof {
                LifecyclePhase::Ended
            } else {
                LifecyclePhase::Streaming
            }),
            final(self).wf(),
            ev == event_of_read(r),
    {
        match r {
            ReadResult::Eof => {
                self.done = true;
                StreamEvent::Ended
            }
            ReadResult::Line(l) => StreamEvent::Line(l),
            ReadResult::Batch(ls) => StreamEvent::Lines(ls),
        }
    }

    /// The documented policy for calls after the terminal state: repeat
    /// `Ended`, deterministically, without consulting the buffer.
    pub fn after_end(&self) -> (ev: StreamEvent)
        requires
            self.phase() is Ended,
        ensures
            ev == StreamEvent::Ended,
    {
        StreamEvent::Ended
    }
}

} // verus!
