use vstd::prelude::*;

verus! {

/// The slot that holds the recurring poll timer's cancellation token, if one
/// was handed out and not yet cancelled.
pub struct TimerSlot {
    token: Option<i32>,
}

/// What the slot holds after a cancellation.
pub open spec fn slot_after_cancel(t: Option<i32>) -> Option<i32> {
    None
}

/// The token that a cancellation hands back to be cleared.
pub open spec fn token_to_clear(t: Option<i32>) -> Option<i32> {
    t
}

impl View for TimerSlot {
    type V = Option<i32>;

    closed spec fn view(&self) -> Option<i32> {
        self.token
    }
}

impl TimerSlot {
    /// A slot with no timer in it.
    pub fn new() -> (r: TimerSlot)
        ensures
            r@ is None,
    {
        TimerSlot { token: None }
    }

    /// Records the token of a timer that was just registered; `None` when
    /// registering handed out no token.
    pub fn arm(&mut self, token: Option<i32>)
        ensures
            final(self)@ == token,
    {
        self.token = token;
    }

    /// Empties the slot, handing back the token that must be cleared. A
    /// second cancellation finds the slot empty and hands back nothing.
    pub fn cancel(&mut self) -> (r: Option<i32>)
        ensures
            r == token_to_clear(old(self)@),
            final(self)@ == slot_after_cancel(old(self)@),
    {
        self.token.take()
    }

    /// The token held, if any.
    pub fn token(&self) -> (r: Option<i32>)
        ensures
            r == self@,
    {
        self.token
    }
}

/// Cancelling twice leaves the slot as cancelling once does, and the second
/// cancellation hands back no token, so no timer is cleared twice.
pub proof fn lemma_cancel_idempotent(t: Option<i32>)
    ensures
        slot_after_cancel(slot_after_cancel(t)) == slot_after_cancel(t),
        token_to_clear(slot_after_cancel(t)) is None,
{
}

} // verus!
