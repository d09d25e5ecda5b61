use vstd::prelude::*;

use crate::prompt::{answer_text, chosen_index, parse_choice};
use crate::timer::TimerSlot;

verus! {

/// Milliseconds between two poll ticks.
pub const POLL_INTERVAL_MS: u32 = 200;

/// Where the discovery-and-connection flow stands.
#[derive(PartialEq, Eq, Structural, Clone, Copy, Debug)]
pub enum Phase {
    /// Nothing started yet.
    Idle,
    /// The timer runs; each tick enumerates the ports.
    Polling,
    /// Several ports were listed; waiting for a human to pick one of `count`.
    Choosing { count: usize },
    /// A port was picked; waiting for the outcome of connecting to it.
    Connecting { index: usize },
    /// A connection is open; terminal.
    Connected,
    /// The device transport could not be set up at all; terminal.
    Failed,
}

/// What the host must do next.
#[derive(PartialEq, Eq, Structural, Clone, Copy, Debug)]
pub enum Action {
    /// Register the recurring poll timer with this interval.
    StartTimer { interval_ms: u32 },
    /// Nothing until the next tick.
    Wait,
    /// Show the port menu and hand back the answer.
    Prompt,
    /// Connect to the port at `index` of the current listing.
    Connect { index: usize },
    /// Clear the timer with this token, if there is one.
    StopTimer { token: Option<i32> },
    /// Stop: the device transport is unavailable.
    Abort,
    /// The event does not apply in this phase; nothing to do.
    Ignore,
}

/// The phase and action that a poll tick with `n` ports leads to.
pub open spec fn on_tick(p: Phase, n: int) -> (Phase, Action) {
    if p is Polling {
        if n == 0 {
            (Phase::Polling, Action::Wait)
        } else if n == 1 {
            (Phase::Connecting { index: 0 }, Action::Connect { index: 0 })
        } else {
            (Phase::Choosing { count: n as usize }, Action::Prompt)
        }
    } else {
        (p, Action::Ignore)
    }
}

/// The phase and action that an answer to the prompt leads to.
pub open spec fn on_answer(p: Phase, answer: Option<Seq<char>>) -> (Phase, Action) {
    match p {
        Phase::Choosing { count } => match chosen_index(answer, count as int) {
            Some(i) => (Phase::Connecting { index: i as usize }, Action::Connect { index: i as usize }),
            None => (p, Action::Prompt),
        },
        _ => (p, Action::Ignore),
    }
}

/// The phase and action that the outcome of a connection attempt leads to,
/// with `token` the timer's token at that moment.
pub open spec fn on_connect_outcome(p: Phase, ok: bool, token: Option<i32>) -> (Phase, Action) {
    if p is Connecting {
        if ok {
            (Phase::Connected, Action::StopTimer { token })
        } else {
            (Phase::Polling, Action::Wait)
        }
    } else {
        (p, Action::Ignore)
    }
}

/// The phase and action after the current attempt was abandoned because a
/// port vanished while its name was read.
pub open spec fn on_abandon(p: Phase) -> (Phase, Action) {
    if p is Choosing || p is Connecting {
        (Phase::Polling, Action::Wait)
    } else {
        (p, Action::Ignore)
    }
}

/// The phases in which a tick is under way or due.
pub open spec fn is_active(p: Phase) -> bool {
    p is Polling || p is Choosing || p is Connecting
}

/// Once connected, the flow stays connected: no tick, answer, connection
/// outcome or abandonment leads out of it, and none asks for any work.
pub proof fn lemma_connected_is_terminal(n: int, answer: Option<Seq<char>>, ok: bool, token: Option<i32>)
    ensures
        on_tick(Phase::Connected, n) == (Phase::Connected, Action::Ignore),
        on_answer(Phase::Connected, answer) == (Phase::Connected, Action::Ignore),
        on_connect_outcome(Phase::Connected, ok, token) == (Phase::Connected, Action::Ignore),
        on_abandon(Phase::Connected) == (Phase::Connected, Action::Ignore),
        !is_active(Phase::Connected),
{
}

/// Runs the decisions of port discovery and connection: the host performs
/// each returned action and reports what came of it.
pub struct Scheduler {
    phase: Phase,
    timer: TimerSlot,
}

impl View for Scheduler {
    type V = (Phase, Option<i32>);

    closed spec fn view(&self) -> (Phase, Option<i32>) {
        (self.phase, self.timer@)
    }
}

impl Scheduler {
    /// A scheduler that has not started.
    pub fn new() -> (r: Scheduler)
        ensures
            r@ == (Phase::Idle, None::<i32>),
    {
        Scheduler { phase: Phase::Idle, timer: TimerSlot::new() }
    }

    /// The current phase.
    pub fn phase(&self) -> (r: Phase)
        ensures
            r == self@.0,
    {
        self.phase
    }

    /// The token of the running timer, if any.
    pub fn timer_token(&self) -> (r: Option<i32>)
        ensures
            r == self@.1,
    {
        self.timer.token()
    }

    fn in_attempt_flow(&self) -> (r: bool)
        ensures
            r == is_active(self@.0),
    {
        matches!(self.phase, Phase::Polling | Phase::Choosing { .. } | Phase::Connecting { .. })
    }

    /// Leaves the idle phase and asks for the poll timer.
    pub fn start(&mut self) -> (a: Action)
        ensures
            old(self)@.0 is Idle ==> final(self)@ == (Phase::Polling, old(self)@.1)
                && a == (Action::StartTimer { interval_ms: POLL_INTERVAL_MS }),
            !(old(self)@.0 is Idle) ==> final(self)@ == old(self)@ && a == Action::Ignore,
    {
        if self.phase == Phase::Idle {
            self.phase = Phase::Polling;
            Action::StartTimer { interval_ms: POLL_INTERVAL_MS }
        } else {
            Action::Ignore
        }
    }

    /// Records the token of the timer that was registered. Should the flow
    /// have ended meanwhile, the timer is to be cleared at once instead.
    pub fn timer_started(&mut self, token: Option<i32>) -> (a: Action)
        ensures
            is_active(old(self)@.0) ==> final(self)@ == (old(self)@.0, token) && a == Action::Wait,
            !is_active(old(self)@.0) ==> final(self)@ == old(self)@
                && a == (Action::StopTimer { token }),
    {
        if self.in_attempt_flow() {
            self.timer.arm(token);
            Action::Wait
        } else {
            Action::StopTimer { token }
        }
    }

    /// One poll tick, with the number of ports the enumeration listed.
    pub fn tick(&mut self, port_count: usize) -> (a: Action)
        ensures
            (final(self)@.0, a) == on_tick(old(self)@.0, port_count as int),
            final(self)@.1 == old(self)@.1,
    {
        if self.phase == Phase::Polling {
            if port_count == 0 {
                Action::Wait
            } else if port_count == 1 {
                self.phase = Phase::Connecting { index: 0 };
                Action::Connect { index: 0 }
            } else {
                self.phase = Phase::Choosing { count: port_count };
                Action::Prompt
            }
        } else {
            Action::Ignore
        }
    }

    /// One answer to the port menu: `None` when the prompt was dismissed.
    /// An answer that is no index in bounds asks again.
    pub fn answer(&mut self, answer: Option<String>) -> (a: Action)
        ensures
            (final(self)@.0, a) == on_answer(old(self)@.0, answer_text(answer)),
            final(self)@.1 == old(self)@.1,
    {
        match self.phase {
            Phase::Choosing { count } => match parse_choice(answer, count) {
                Some(i) => {
                    self.phase = Phase::Connecting { index: i };
                    Action::Connect { index: i }
                },
                None => Action::Prompt,
            },
            _ => Action::Ignore,
        }
    }

    /// The outcome of connecting to the chosen port. Success ends the flow
    /// and cancels the timer; failure waits for the next tick.
    pub fn connect_outcome(&mut self, ok: bool) -> (a: Action)
        ensures
            (final(self)@.0, a) == on_connect_outcome(old(self)@.0, ok, old(self)@.1),
            (old(self)@.0 is Connecting && ok) ==> final(self)@.1 is None,
            !(old(self)@.0 is Connecting && ok) ==> final(self)@.1 == old(self)@.1,
    {
        if matches!(self.phase, Phase::Connecting { .. }) {
            if ok {
                self.phase = Phase::Connected;
                let token = self.timer.cancel();
                Action::StopTimer { token }
            } else {
                self.phase = Phase::Polling;
                Action::Wait
            }
        } else {
            Action::Ignore
        }
    }

    /// Gives up the current attempt (a port vanished before its name was
    /// read); the next tick tries again.
    pub fn abandon(&mut self) -> (a: Action)
        ensures
            (final(self)@.0, a) == on_abandon(old(self)@.0),
            final(self)@.1 == old(self)@.1,
    {
        if matches!(self.phase, Phase::Choosing { .. } | Phase::Connecting { .. }) {
            self.phase = Phase::Polling;
            Action::Wait
        } else {
            Action::Ignore
        }
    }

    /// The device transport could not be set up: the flow fails for good.
    pub fn transport_failed(&mut self) -> (a: Action)
        ensures
            is_active(old(self)@.0) ==> final(self)@.0 == Phase::Failed && a == Action::Abort,
            !is_active(old(self)@.0) ==> final(self)@.0 == old(self)@.0 && a == Action::Ignore,
            final(self)@.1 == old(self)@.1,
    {
        if self.in_attempt_flow() {
            self.phase = Phase::Failed;
            Action::Abort
        } else {
            Action::Ignore
        }
    }

    /// Cancels the timer: hands back the token to clear, and nothing when it
    /// was cancelled already.
    pub fn cancel_timer(&mut self) -> (r: Option<i32>)
        ensures
            r == old(self)@.1,
            final(self)@ == (old(self)@.0, None::<i32>),
    {
        self.timer.cancel()
    }
}

} // verus!
