//! The policy for opening a backend connection: a bounded number of
//! attempts, each given a fixed window.
use vstd::prelude::*;

verus! {

/// How many times a connection is attempted before giving up.
pub const CONNECT_ATTEMPTS: u32 = 3;

/// How long one attempt may take, and how long a failed attempt occupies,
/// in milliseconds.
pub const ATTEMPT_WINDOW_MS: u64 = 2000;

/// What the caller does next.
#[derive(Clone, Copy, Debug, PartialEq, Eq, Structural)]
pub enum ConnectStep {
    /// Try to connect, racing the attempt against the window.
    Attempt,
    /// The connection is open.
    Connected,
    /// Every attempt failed.
    GaveUp,
}

/// Progress of one connect: how many attempts have been made so far.
pub struct ConnectPolicy {
    pub attempts: u32,
}

impl ConnectPolicy {
    pub open spec fn wf(&self) -> bool {
        1 <= self.attempts <= CONNECT_ATTEMPTS
    }

    /// Begins a connect with its first attempt.
    pub fn new() -> (r: (ConnectPolicy, ConnectStep))
        ensures
            r.0.wf(),
            r.0.attempts == 1,
            r.1 == ConnectStep::Attempt,
    {
        (ConnectPolicy { attempts: 1 }, ConnectStep::Attempt)
    }

    /// Takes the result of the last attempt: a success ends the connect, a
    /// failure asks for another attempt until the last one has failed.
    pub fn on_attempt(&mut self, connected: bool) -> (r: ConnectStep)
        requires
            old(self).wf(),
        ensures
            final(self).wf(),
            connected ==> r == ConnectStep::Connected && final(self).attempts == old(self).attempts,
            !connected && old(self).attempts < CONNECT_ATTEMPTS ==> r == ConnectStep::Attempt
                && final(self).attempts == old(self).attempts + 1,
            !connected && old(self).attempts == CONNECT_ATTEMPTS ==> r == ConnectStep::GaveUp
                && final(self).attempts == old(self).attempts,
    {
        if connected {
            ConnectStep::Connected
        } else if self.attempts < CONNECT_ATTEMPTS {
            self.attempts = self.attempts + 1;
            ConnectStep::Attempt
        } else {
            ConnectStep::GaveUp
        }
    }
}

} // verus!
