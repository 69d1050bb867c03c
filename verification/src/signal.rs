use vstd::prelude::*;

verus! {

/// The shared stop signal: a stop flag plus a one-shot completion
/// notification, observable from several threads.
///
/// This type is the state of that pair of primitives. At run time the
/// flag is an atomic boolean and the notification a one-shot wakeup; the
/// contracts below say how each operation changes the state, and the
/// coordinator's and job's state machines are proved against them. The
/// invariant of a valid execution — the flag goes `false -> true` at most
/// once, and the notification fires only after the job has observed the
/// flag — is enforced by the callers' contracts, not by this type alone.
pub struct StopSignal {
    flag: bool,
    completion_fired: bool,
}

impl StopSignal {
    /// True once `raise` has been called.
    pub closed spec fn raised(&self) -> bool {
        self.flag
    }

    /// True once `mark_complete` has been called.
    pub closed spec fn completed(&self) -> bool {
        self.completion_fired
    }

    /// The state that `raise` leaves behind.
    pub closed spec fn raise_spec(s: StopSignal) -> StopSignal {
        StopSignal { flag: true, ..s }
    }

    /// The state that `mark_complete` leaves behind.
    pub closed spec fn mark_complete_spec(s: StopSignal) -> StopSignal {
        StopSignal { completion_fired: true, ..s }
    }

    /// A fresh signal: flag down, notification not yet fired.
    pub fn new() -> (s: StopSignal)
        ensures
            !s.raised(),
            !s.completed(),
    {
        StopSignal { flag: false, completion_fired: false }
    }

    /// Set the stop flag. Idempotent: the resulting state depends only on
    /// the completion half of the old state.
    pub fn raise(&mut self)
        ensures
            *final(self) == StopSignal::raise_spec(*old(self)),
            final(self).raised(),
            final(self).completed() == old(self).completed(),
    {
        self.flag = true;
    }

    /// Non-blocking read of the stop flag, from any thread.
    pub fn observe(&self) -> (b: bool)
        ensures
            b == self.raised(),
    {
        self.flag
    }

    /// Fire the completion notification. A repeated call is a no-op, not
    /// an error; the result reports whether this call was the one that
    /// fired it, so a caller can log the protocol violation a second call
    /// indicates.
    pub fn mark_complete(&mut self) -> (was_first: bool)
        ensures
            *final(self) == StopSignal::mark_complete_spec(*old(self)),
            final(self).completed(),
            final(self).raised() == old(self).raised(),
            was_first == !old(self).completed(),
    {
        let was_first = !self.completion_fired;
        self.completion_fired = true;
        was_first
    }

    /// Non-blocking query of the completion half: true exactly when a
    /// blocked `await_complete` at run time would have been released.
    pub fn is_complete(&self) -> (b: bool)
        ensures
            b == self.completed(),
    {
        self.completion_fired
    }
}

/// Raising the signal twice produces exactly the state that raising it
/// once produces: `raise` is idempotent.
pub proof fn lemma_raise_idempotent(s: StopSignal)
    ensures
        StopSignal::raise_spec(StopSignal::raise_spec(s)) == StopSignal::raise_spec(s),
{
}

/// Firing the completion notification twice produces exactly the state
/// that firing it once produces: a second `mark_complete` neither un-fires
/// nor re-fires it.
pub proof fn lemma_mark_complete_idempotent(s: StopSignal)
    ensures
        StopSignal::mark_complete_spec(StopSignal::mark_complete_spec(s))
            == StopSignal::mark_complete_spec(s),
{
}

/// The signal only moves forward: no operation lowers a raised flag, and
/// the one-shot notification, once fired, stays fired. With these, the
/// flag's only transition over a signal's lifetime is the single
/// `false -> true` step of the first raise.
pub proof fn lemma_signal_state_is_monotone(s: StopSignal)
    ensures
        StopSignal::raise_spec(s).raised(),
        s.raised() ==> StopSignal::mark_complete_spec(s).raised(),
        StopSignal::mark_complete_spec(s).completed(),
        s.completed() ==> StopSignal::raise_spec(s).completed(),
{
}

/// Raising and completing commute: the coalesced second stop trigger can
/// interleave with the job's acknowledgement in either order and leave the
/// same state.
pub proof fn lemma_raise_mark_complete_commute(s: StopSignal)
    ensures
        StopSignal::mark_complete_spec(StopSignal::raise_spec(s))
            == StopSignal::raise_spec(StopSignal::mark_complete_spec(s)),
{
}

} // verus!
