//! The stop / stopped handshake between an update controller and one supervisor run.

use vstd::prelude::*;

verus! {

/// What a [`ControlSignals`] pair holds.
pub struct SignalState {
    pub stop_requested: bool,
    pub has_stopped: bool,
}

impl SignalState {
    /// The state of a pair that nobody has touched yet.
    pub open spec fn fresh() -> SignalState {
        SignalState { stop_requested: false, has_stopped: false }
    }

    /// A flag that is up in `self` is up in `later`.
    pub open spec fn precedes(self, later: SignalState) -> bool {
        &&& self.stop_requested ==> later.stop_requested
        &&& self.has_stopped ==> later.has_stopped
    }
}

/// Two flags shared by one controller and one supervisor run.
///
/// The controller raises `stop_requested`; the supervisor raises `has_stopped` once its
/// child process is gone. A flag that is up stays up: the pair is thrown away together
/// with the run it was made for.
#[derive(Debug, PartialEq, Eq)]
pub struct ControlSignals {
    stop_requested: bool,
    has_stopped: bool,
}

impl View for ControlSignals {
    type V = SignalState;

    closed spec fn view(&self) -> SignalState {
        SignalState { stop_requested: self.stop_requested, has_stopped: self.has_stopped }
    }
}

impl ControlSignals {
    /// A pair for a new run, both flags down.
    pub fn new() -> (signals: ControlSignals)
        ensures
            signals@ == SignalState::fresh(),
    {
        ControlSignals { stop_requested: false, has_stopped: false }
    }

    /// Asks the supervisor to stop. Only `stop_requested` of this pair changes.
    pub fn request_stop(&mut self)
        ensures
            final(self)@ == (SignalState { stop_requested: true, ..old(self)@ }),
            old(self)@.precedes(final(self)@),
    {
        self.stop_requested = true;
    }

    /// Records that the child process is gone. Only `has_stopped` of this pair changes.
    pub fn mark_stopped(&mut self)
        ensures
            final(self)@ == (SignalState { has_stopped: true, ..old(self)@ }),
            old(self)@.precedes(final(self)@),
    {
        self.has_stopped = true;
    }

    /// Whether a stop has been requested.
    pub fn stop_requested(&self) -> (requested: bool)
        ensures
            requested == self@.stop_requested,
    {
        self.stop_requested
    }

    /// Whether the supervisor has reported that its child is gone.
    pub fn has_stopped(&self) -> (stopped: bool)
        ensures
            stopped == self@.has_stopped,
    {
        self.has_stopped
    }
}

/// `precedes` is an order on signal states: every state precedes itself, and the relation
/// chains. With the contracts of `request_stop` and `mark_stopped` this makes both flags
/// monotonic over any sequence of calls.
pub proof fn lemma_precedes_is_preorder(a: SignalState, b: SignalState, c: SignalState)
    ensures
        a.precedes(a),
        a.precedes(b) && b.precedes(c) ==> a.precedes(c),
        SignalState::fresh().precedes(a),
{
}

} // verus!
