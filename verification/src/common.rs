//! Types shared by every part of the client.

use crate::policy::{
    lemma_grown_bounds, BackoffPolicy, BackoffState, DEFAULT_MAX_INTERVAL, DEFAULT_MULTIPLIER,
    DEFAULT_RANDOMIZATION_FACTOR,
};
use vstd::prelude::*;

verus! {

/// One complete frame, sent or received.
#[derive(Clone, Debug, PartialEq, Eq)]
pub enum WsMessage {
    Text(String),
    Binary(Vec<u8>),
}

/// A notification from a transport handle.
#[derive(Clone, Debug, PartialEq, Eq)]
pub enum WsEvent {
    /// The connection is established.
    Open,
    /// A frame has arrived.
    Message(WsMessage),
    /// The transport reports a failure. A `Close` follows it.
    Error,
    /// The connection is gone.
    Close,
}

/// The status of a connection, as the transport reports it.
#[derive(Copy, Clone, Debug, PartialEq, Eq, Structural)]
pub enum ReadyState {
    Connecting,
    Open,
    Closing,
    Closed,
    /// A status number outside the four defined ones.
    Other(u16),
}

impl ReadyState {
    /// The status that the transport's number stands for: 0 to 3 are the
    /// four defined states, in the order of the variants.
    pub open spec fn of(state: u16) -> ReadyState {
        if state == 0 {
            ReadyState::Connecting
        } else if state == 1 {
            ReadyState::Open
        } else if state == 2 {
            ReadyState::Closing
        } else if state == 3 {
            ReadyState::Closed
        } else {
            ReadyState::Other(state)
        }
    }
}

impl From<u16> for ReadyState {
    /// Reads the transport's numeric status: 0 to 3 are the four defined
    /// states, in the order of the variants.
    fn from(state: u16) -> (r: Self) {
        match state {
            0 => ReadyState::Connecting,
            1 => ReadyState::Open,
            2 => ReadyState::Closing,
            3 => ReadyState::Closed,
            _ => ReadyState::Other(state),
        }
    }
}

impl vstd::std_specs::convert::FromSpecImpl<u16> for ReadyState {
    open spec fn obeys_from_spec() -> bool {
        true
    }

    open spec fn from_spec(state: u16) -> Self {
        ReadyState::of(state)
    }
}

/// The exponential backoff of one client: its policy, the interval that the
/// next delay is drawn round, and whether a reconnect sequence is under way.
///
/// `next_backoff` begins or continues a reconnect sequence; `reset` ends it
/// once a connection is established again.
#[derive(Copy, Clone, Debug, PartialEq, Eq)]
pub struct ReconnectConfig {
    state: BackoffState,
}

impl View for ReconnectConfig {
    type V = BackoffState;

    closed spec fn view(&self) -> BackoffState {
        self.state
    }
}

impl ReconnectConfig {
    /// Every value of this type keeps its interval between the policy's start
    /// and its maximum.
    #[verifier::type_invariant]
    pub open spec fn inv(self) -> bool {
        self@.wf()
    }

    /// A backoff with the standard policy, not yet used.
    pub fn new() -> (cfg: Self)
        ensures
            cfg@ == BackoffState::fresh(BackoffPolicy::standard()),
            cfg@.wf(),
    {
        Self::new_custom(DEFAULT_RANDOMIZATION_FACTOR, DEFAULT_MULTIPLIER, DEFAULT_MAX_INTERVAL)
    }

    /// A backoff with a policy of its own, not yet used.
    ///
    /// `randomization_factor` and `multiplier` are in thousandths and
    /// `max_interval` is in milliseconds. A factor above 1000 is taken as
    /// 1000 and a multiplier below 1000 as 1000. The first interval is half a
    /// second, or `max_interval` where that is shorter.
    pub fn new_custom(randomization_factor: u32, multiplier: u32, max_interval: u64) -> (cfg: Self)
        ensures
            cfg@ == BackoffState::fresh(
                BackoffPolicy::clamped(randomization_factor, multiplier, max_interval),
            ),
            cfg@.wf(),
    {
        Self::with_policy(BackoffPolicy::new(randomization_factor, multiplier, max_interval))
    }

    /// A backoff with the given policy, not yet used. Its first interval is
    /// the policy's initial interval, or the maximum where that is shorter.
    pub fn with_policy(policy: BackoffPolicy) -> (cfg: Self)
        ensures
            cfg@ == BackoffState::fresh(policy),
            cfg@.wf(),
    {
        ReconnectConfig {
            state: BackoffState { policy, current_interval: policy.reset(), active: false },
        }
    }

    /// The policy that the delays follow.
    pub fn policy(&self) -> (policy: BackoffPolicy)
        ensures
            policy == self@.policy,
    {
        self.state.policy
    }

    /// The interval, in milliseconds, that the next delay is drawn round.
    pub fn current_interval(&self) -> (interval: u64)
        ensures
            interval == self@.current_interval,
            self@.policy.start() <= interval <= self@.policy.max_interval,
    {
        proof {
            use_type_invariant(self);
        }
        self.state.current_interval
    }

    /// Whether a reconnect sequence is under way: whether `next_backoff` has
    /// been called since the last `reset`.
    pub fn is_reconnecting(&self) -> (active: bool)
        ensures
            active == self@.active,
            self@.wf(),
    {
        proof {
            use_type_invariant(self);
        }
        self.state.active
    }

    /// The delay, in milliseconds, to wait before the next attempt to
    /// connect. `sample` is a uniformly drawn random number; it picks the
    /// delay from the window round the current interval.
    ///
    /// The backoff becomes active, and its interval grows for the next call.
    pub fn next_backoff(&mut self, sample: u32) -> (delay: u64)
        ensures
            delay == old(self)@.delay(sample),
            final(self)@ == old(self)@.advance(),
            old(self)@.wf(),
            final(self)@.wf(),
    {
        proof {
            use_type_invariant(&*self);
            lemma_grown_bounds(self.state.policy, self.state.current_interval as int);
        }
        let step = self.state.policy.next(self.state.current_interval, sample);
        self.state = BackoffState {
            policy: self.state.policy,
            current_interval: step.1,
            active: true,
        };
        step.0
    }

    /// Ends the reconnect sequence: the backoff is inactive again and its
    /// interval is back at the policy's start.
    pub fn reset(&mut self)
        ensures
            final(self)@ == old(self)@.restart(),
            final(self)@.wf(),
    {
        self.state = BackoffState {
            policy: self.state.policy,
            current_interval: self.state.policy.reset(),
            active: false,
        };
    }
}

impl Default for ReconnectConfig {
    fn default() -> (cfg: Self)
        ensures
            cfg@ == BackoffState::fresh(BackoffPolicy::standard()),
            cfg@.wf(),
    {
        Self::new()
    }
}

} // verus!
