//! The connectivity supervisor: the reconnect state machine.
//!
//! The supervisor exclusively owns the radio for the life of the device and
//! drives it through the cycle `Disconnected → StartingRadio → Connecting →
//! Connected`, falling back to `Connecting` when the link drops. The machine
//! also has two failure edges beside that cycle: a failed start falls back
//! from `StartingRadio` to `Disconnected` (the radio is not running), and a
//! failed connect stays in `Connecting`. Every failure and every disconnect
//! notification is absorbed with the same fixed backoff delay and retried
//! without bound; nothing is escalated. The radio calls and the waiting
//! itself happen outside this crate: the caller polls
//! [`Supervisor::next_action`], performs the action, and reports what came of
//! it through [`Supervisor::on_event`].

use vstd::prelude::*;

verus! {

/// The fixed backoff applied before re-evaluating connectivity, in
/// milliseconds.
pub const BACKOFF_MS: u64 = 5000;

/// Where the supervisor stands in the reconnect cycle.
#[derive(Clone, Copy, Debug, PartialEq, Eq, Structural)]
pub enum ConnectionState {
    /// The radio is not running.
    Disconnected,
    /// A start of the radio has been asked for.
    StartingRadio,
    /// A connect attempt is due or under way.
    Connecting,
    /// The link is up; nothing to do until a disconnect notification.
    Connected,
}

/// What the supervisor asks its caller to do next.
#[derive(Clone, Copy, Debug, PartialEq, Eq, Structural)]
pub enum SupervisorAction {
    /// Suspend until the backoff deadline has passed, then poll again.
    Delay,
    /// Apply the stored credentials and start the radio.
    StartRadio,
    /// Attempt a connect operation.
    AttemptConnect,
    /// Suspend until the radio reports that the link dropped.
    AwaitDisconnect,
}

/// What the caller reports back after performing an action.
#[derive(Clone, Copy, Debug, PartialEq, Eq, Structural)]
pub enum SupervisorEvent {
    /// The radio started and credentials are applied.
    RadioStarted,
    /// The radio would not start; retry after the backoff.
    RadioStartFailed,
    /// The connect attempt succeeded: the link is up.
    ConnectSucceeded,
    /// The connect attempt failed; retry after the backoff.
    ConnectFailed,
    /// The link dropped while connected.
    DisconnectNotified,
}

/// The supervisor's state: the reconnect machine, whether the radio has been
/// started, and the deadline before which no new attempt is made.
#[derive(Clone, Copy, Debug, PartialEq, Eq, Structural)]
pub struct Supervisor {
    pub state: ConnectionState,
    pub radio_started: bool,
    pub backoff_until_ms: u64,
}

/// What a poll at time `now_ms` asks for: nothing but waiting while
/// connected or while the backoff runs; otherwise the next step of the
/// cycle, starting the radio first if it is not running.
pub open spec fn next_action_spec(s: Supervisor, now_ms: u64) -> SupervisorAction {
    if s.state == ConnectionState::Connected {
        SupervisorAction::AwaitDisconnect
    } else if now_ms < s.backoff_until_ms {
        SupervisorAction::Delay
    } else if !s.radio_started {
        SupervisorAction::StartRadio
    } else {
        SupervisorAction::AttemptConnect
    }
}

/// The state after a poll at time `now_ms`: issuing a start or a connect
/// moves the machine into the matching in-progress state; waiting changes
/// nothing.
pub open spec fn state_after_poll(s: Supervisor, now_ms: u64) -> Supervisor {
    if s.state == ConnectionState::Connected || now_ms < s.backoff_until_ms {
        s
    } else if !s.radio_started {
        Supervisor {
            state: ConnectionState::StartingRadio,
            radio_started: s.radio_started,
            backoff_until_ms: s.backoff_until_ms,
        }
    } else {
        Supervisor {
            state: ConnectionState::Connecting,
            radio_started: s.radio_started,
            backoff_until_ms: s.backoff_until_ms,
        }
    }
}

/// The state after the caller reports `ev` at time `now_ms`. Every failure
/// and every disconnect arms the same fixed backoff; a disconnect falls back
/// to `Connecting`, a failed start to `Disconnected`.
pub open spec fn state_after_event(s: Supervisor, ev: SupervisorEvent, now_ms: u64) -> Supervisor {
    match ev {
        SupervisorEvent::RadioStarted => Supervisor {
            state: ConnectionState::Connecting,
            radio_started: true,
            backoff_until_ms: s.backoff_until_ms,
        },
        SupervisorEvent::RadioStartFailed => Supervisor {
            state: ConnectionState::Disconnected,
            radio_started: s.radio_started,
            backoff_until_ms: (now_ms + BACKOFF_MS) as u64,
        },
        SupervisorEvent::ConnectSucceeded => Supervisor {
            state: ConnectionState::Connected,
            radio_started: s.radio_started,
            backoff_until_ms: s.backoff_until_ms,
        },
        SupervisorEvent::ConnectFailed => Supervisor {
            state: ConnectionState::Connecting,
            radio_started: s.radio_started,
            backoff_until_ms: (now_ms + BACKOFF_MS) as u64,
        },
        SupervisorEvent::DisconnectNotified => Supervisor {
            state: ConnectionState::Connecting,
            radio_started: s.radio_started,
            backoff_until_ms: (now_ms + BACKOFF_MS) as u64,
        },
    }
}

impl Supervisor {
    /// A fresh supervisor: radio down, no backoff pending.
    pub fn new() -> (s: Supervisor)
        ensures
            s.state == ConnectionState::Disconnected,
            !s.radio_started,
            s.backoff_until_ms == 0,
    {
        Supervisor {
            state: ConnectionState::Disconnected,
            radio_started: false,
            backoff_until_ms: 0,
        }
    }

    /// One poll of the cycle: decides the next action for time `now_ms` and
    /// moves the machine into the matching in-progress state.
    pub fn next_action(&mut self, now_ms: u64) -> (a: SupervisorAction)
        ensures
            a == next_action_spec(*old(self), now_ms),
            *final(self) == state_after_poll(*old(self), now_ms),
    {
        if self.state == ConnectionState::Connected {
            SupervisorAction::AwaitDisconnect
        } else if now_ms < self.backoff_until_ms {
            SupervisorAction::Delay
        } else if !self.radio_started {
            self.state = ConnectionState::StartingRadio;
            SupervisorAction::StartRadio
        } else {
            self.state = ConnectionState::Connecting;
            SupervisorAction::AttemptConnect
        }
    }

    /// Takes the caller's report of what the action came to. Failures and
    /// disconnects arm the fixed backoff; they are absorbed here and never
    /// escalated.
    pub fn on_event(&mut self, ev: SupervisorEvent, now_ms: u64)
        requires
            now_ms + BACKOFF_MS <= u64::MAX,
        ensures
            *final(self) == state_after_event(*old(self), ev, now_ms),
    {
        match ev {
            SupervisorEvent::RadioStarted => {
                self.radio_started = true;
                self.state = ConnectionState::Connecting;
            },
            SupervisorEvent::RadioStartFailed => {
                self.state = ConnectionState::Disconnected;
                self.backoff_until_ms = now_ms + BACKOFF_MS;
            },
            SupervisorEvent::ConnectSucceeded => {
                self.state = ConnectionState::Connected;
            },
            SupervisorEvent::ConnectFailed => {
                self.state = ConnectionState::Connecting;
                self.backoff_until_ms = now_ms + BACKOFF_MS;
            },
            SupervisorEvent::DisconnectNotified => {
                self.state = ConnectionState::Connecting;
                self.backoff_until_ms = now_ms + BACKOFF_MS;
            },
        }
    }
}

/// Law: after a disconnect notification at time `t`, a poll before the fixed
/// backoff has elapsed only waits — no start and no connect attempt — and a
/// poll at or after the deadline asks for a reconnection step.
pub proof fn lemma_backoff_respected(s: Supervisor, t: u64, t2: u64)
    requires
        s.state == ConnectionState::Connected,
        t + BACKOFF_MS <= u64::MAX,
    ensures
        ({
            let s2 = state_after_event(s, SupervisorEvent::DisconnectNotified, t);
            &&& (t2 < t + BACKOFF_MS ==> next_action_spec(s2, t2) == SupervisorAction::Delay)
            &&& (t2 >= t + BACKOFF_MS ==> next_action_spec(s2, t2) == SupervisorAction::StartRadio
                || next_action_spec(s2, t2) == SupervisorAction::AttemptConnect)
        }),
{
}

/// Law: a failed start or connect is likewise retried only after the fixed
/// backoff: the poll keeps waiting before the deadline and asks for the next
/// step at or after it.
pub proof fn lemma_failure_backoff_respected(s: Supervisor, ev: SupervisorEvent, t: u64, t2: u64)
    requires
        ev == SupervisorEvent::RadioStartFailed || ev == SupervisorEvent::ConnectFailed,
        t + BACKOFF_MS <= u64::MAX,
    ensures
        ({
            let s2 = state_after_event(s, ev, t);
            &&& (t2 < t + BACKOFF_MS ==> next_action_spec(s2, t2) == SupervisorAction::Delay)
            &&& (t2 >= t + BACKOFF_MS ==> next_action_spec(s2, t2) == SupervisorAction::StartRadio
                || next_action_spec(s2, t2) == SupervisorAction::AttemptConnect)
        }),
{
}

} // verus!
