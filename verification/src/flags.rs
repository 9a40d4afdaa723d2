//! The two process-wide signals of the session: the termination signal and
//! the redraw-dirty flag.
//!
//! Both are modelled here as sequential state with exact transition
//! functions; the surrounding binary shares them between the two threads
//! (each transition below is a single atomic step there). The termination
//! signal only ever moves from `false` to `true`; the dirty flag is set by
//! any producer of a visible change and cleared by the single render
//! consumer through a test-and-clear.

use vstd::prelude::*;

verus! {

/// Cooperative shutdown request: once set it never returns to false.
/// Set by the receiver task on peer close and by the event loop on a
/// local quit; read by both threads at their next check point.
pub struct TerminationSignal {
    pub terminated: bool,
}

impl View for TerminationSignal {
    type V = bool;

    open spec fn view(&self) -> bool {
        self.terminated
    }
}

impl TerminationSignal {
    /// The state after a stop request, whatever the state before:
    /// the signal is set, and a second request changes nothing.
    pub open spec fn requested(self) -> TerminationSignal {
        TerminationSignal { terminated: true }
    }

    /// Fresh signal: not yet terminated.
    pub fn new() -> (signal: TerminationSignal)
        ensures
            !signal@,
    {
        TerminationSignal { terminated: false }
    }

    /// Requests cooperative shutdown. Never un-sets the signal.
    pub fn request_stop(&mut self)
        ensures
            *final(self) == (*old(self)).requested(),
            final(self)@,
    {
        self.terminated = true;
    }

    /// Whether shutdown has been requested.
    pub fn is_terminated(&self) -> (set: bool)
        ensures
            set == self@,
    {
        self.terminated
    }
}

/// A stop request is idempotent: the signal is set by the first request,
/// and repeated requests afterward produce no additional effect.
pub proof fn lemma_stop_request_idempotent(signal: TerminationSignal)
    ensures
        signal.requested()@,
        signal.requested().requested() == signal.requested(),
{
}

/// Pending-visible-change flag. Any number of producers set it; exactly
/// one consumer (the render step) clears it with a test-and-clear, so a
/// set is never silently dropped between the producer's store and the
/// consumer's check.
pub struct RedrawFlag {
    pub dirty: bool,
}

impl View for RedrawFlag {
    type V = bool;

    open spec fn view(&self) -> bool {
        self.dirty
    }
}

impl RedrawFlag {
    /// The state after a producer marks a visible change.
    pub open spec fn marked(self) -> RedrawFlag {
        RedrawFlag { dirty: true }
    }

    /// The outcome of one test-and-clear: whether a render was claimed,
    /// and the state left behind (always clean).
    pub open spec fn claimed(self) -> (bool, RedrawFlag) {
        (self.dirty, RedrawFlag { dirty: false })
    }

    /// Fresh flag: dirty, so the very first loop iteration renders once
    /// before any input or arrival.
    pub fn new() -> (flag: RedrawFlag)
        ensures
            flag@,
    {
        RedrawFlag { dirty: true }
    }

    /// Marks a pending visible change.
    pub fn mark(&mut self)
        ensures
            *final(self) == (*old(self)).marked(),
            final(self)@,
    {
        self.dirty = true;
    }

    /// Atomically tests and clears the flag; the render pass runs exactly
    /// when this returns true.
    pub fn test_and_clear(&mut self) -> (was_dirty: bool)
        ensures
            was_dirty == old(self).claimed().0,
            *final(self) == (*old(self)).claimed().1,
            !final(self)@,
    {
        let was_dirty = self.dirty;
        self.dirty = false;
        was_dirty
    }
}

/// After any producer set, the consumer's next test-and-clear claims a
/// render: at least one render pass follows any produced change.
pub proof fn lemma_render_follows_mark(flag: RedrawFlag)
    ensures
        flag.marked().claimed().0,
{
}

/// Two consecutive idle iterations never both render: once a
/// test-and-clear has run, another one claims no render unless a
/// producer set the flag in between.
pub proof fn lemma_no_render_when_idle(flag: RedrawFlag)
    ensures
        !flag.claimed().1.claimed().0,
{
}

} // verus!
