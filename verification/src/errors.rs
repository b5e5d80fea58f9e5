//! A bounded trace of recent internal operations, attached to every message
//! that crosses the process boundary so that a failure on the receiving side
//! can be attributed to the operations that produced it.
use vstd::prelude::*;

verus! {

/// The largest number of call sites an [`ErrorContext`] retains.
pub const MAX_CONTEXT_CALLS: usize = 10;

/// The kind of internal operation a recorded call site was executing.
#[derive(Clone, Copy, PartialEq, Eq, Structural, Debug)]
pub enum CallKind {
    Screen,
    Pty,
    App,
    IpcServer,
    IpcClient,
    StdinHandler,
    SignalHandler,
}

/// An ordered, fixed-capacity trace of the most recent internal operations of
/// one sending thread. It is refreshed in place before each send and copied by
/// value into every outgoing message; when full, the oldest entry is evicted.
#[derive(Clone, PartialEq, Eq, Debug)]
pub struct ErrorContext {
    calls: Vec<CallKind>,
}

impl View for ErrorContext {
    type V = Seq<CallKind>;

    closed spec fn view(&self) -> Seq<CallKind> {
        self.calls@
    }
}

impl ErrorContext {
    /// The context never holds more entries than its fixed capacity.
    pub open spec fn wf(&self) -> bool {
        self@.len() <= MAX_CONTEXT_CALLS
    }

    /// An empty trace: no operations recorded yet.
    pub fn new() -> (r: ErrorContext)
        ensures
            r@ == Seq::<CallKind>::empty(),
            r.wf(),
    {
        ErrorContext { calls: Vec::new() }
    }

    /// Records one more call site. While there is room the new entry is
    /// appended; once the capacity is reached the oldest entry is evicted to
    /// make room, so the trace always holds the most recent operations in
    /// order.
    pub fn add_call(&mut self, kind: CallKind)
        requires
            old(self).wf(),
        ensures
            final(self).wf(),
            old(self)@.len() < MAX_CONTEXT_CALLS ==> final(self)@ == old(self)@.push(kind),
            old(self)@.len() == MAX_CONTEXT_CALLS ==> final(self)@ == old(self)@.subrange(
                1,
                MAX_CONTEXT_CALLS as int,
            ).push(kind),
    {
        if self.calls.len() == MAX_CONTEXT_CALLS {
            self.calls.remove(0);
        }
        self.calls.push(kind);
    }

    /// A copy with the same recorded call sites; the context accompanies
    /// every message by value, so copying it must be cheap and exact.
    pub fn duplicate(&self) -> (r: ErrorContext)
        ensures
            r@ == self@,
    {
        let mut calls: Vec<CallKind> = Vec::new();
        let mut i: usize = 0;
        while i < self.calls.len()
            invariant
                i <= self.calls.len(),
                calls@ == self@.subrange(0, i as int),
            decreases self.calls.len() - i,
        {
            calls.push(self.calls[i]);
            i += 1;
            proof {
                assert(calls@ =~= self@.subrange(0, i as int));
            }
        }
        proof {
            assert(calls@ =~= self@);
        }
        ErrorContext { calls }
    }

    /// How many call sites are currently recorded.
    pub fn len(&self) -> (r: usize)
        ensures
            r == self@.len(),
    {
        self.calls.len()
    }

    /// The recorded call sites, oldest first.
    pub fn calls(&self) -> (r: &Vec<CallKind>)
        ensures
            r@ == self@,
    {
        &self.calls
    }
}

} // verus!
