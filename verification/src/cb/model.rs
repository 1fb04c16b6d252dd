//! The connection's life as a state machine.
//!
//! `CoreState` is the state; each input to the machine has a function that
//! gives the state after it and functions that give what the host is told to
//! do. The executable client in `machine` computes exactly these functions.
//!
//! Transport handles are told apart by their generation: the first handle has
//! generation 0 and each handle that replaces another has the next number. A
//! notification carries the generation of the handle it comes from. It is
//! heard only where that handle is the current one and has not been closed
//! yet; any other notification has no effect at all.

use crate::common::{ReadyState, WsEvent};
use crate::policy::{BackoffPolicy, BackoffState};
use vstd::prelude::*;

verus! {

/// The close code that stands for "no status given".
pub const NO_STATUS: u16 = 1005;

/// The close code of a normal closure.
pub const NORMAL_CLOSURE: u16 = 1000;

/// The first close code that applications may define.
pub const FIRST_CUSTOM_CODE: u16 = 3000;

/// The last close code that applications may define.
pub const LAST_CUSTOM_CODE: u16 = 4999;

/// The longest close reason, in bytes of UTF-8.
pub const MAX_REASON_BYTES: usize = 123;

/// Which of the user's four handlers are set.
#[derive(Copy, Clone, Debug, PartialEq, Eq, Structural)]
pub struct HandlerSet {
    pub message: bool,
    pub open: bool,
    pub error: bool,
    pub close: bool,
}

/// Which of a transport handle's four notifications have an adapter on them.
#[derive(Copy, Clone, Debug, PartialEq, Eq, Structural)]
pub struct AdapterSet {
    pub message: bool,
    pub open: bool,
    pub error: bool,
    pub close: bool,
}

/// Where a client stands with its retry.
#[derive(Copy, Clone, Debug, PartialEq, Eq, Structural)]
pub enum RetryState {
    /// No retry is scheduled and none is being made.
    Idle,
    /// A timer is running; when it fires the client will try to connect.
    Scheduled,
    /// The timer has fired and the host is opening a new transport handle.
    Attempting,
}

/// No transport handle could be opened. `cause` is what the transport gave
/// as the reason, as the host got it.
#[derive(Clone, Debug, PartialEq, Eq)]
pub struct ConstructionError<E> {
    pub cause: E,
}

/// Why a close was refused.
#[derive(Copy, Clone, Debug, PartialEq, Eq, Structural)]
pub enum CloseError {
    /// The code is neither 1000, nor 1005, nor one of 3000 to 4999.
    InvalidCode(u16),
    /// The reason is longer than 123 bytes; the length is given.
    ReasonTooLong(usize),
}

/// Why a message was not sent.
#[derive(Clone, Debug, PartialEq, Eq)]
pub enum SendError<E> {
    /// The connection is not open; its status is given.
    NotOpen(ReadyState),
    /// The transport refused the message; what it gave as the reason is
    /// passed on as the host got it.
    Transport(E),
}

/// What follows from a close notification, in the order in which the host
/// acts on it: first the retry is scheduled, then the user's handler runs.
#[derive(Copy, Clone, Debug, PartialEq, Eq, Structural)]
pub struct CloseReaction {
    /// The delay, in milliseconds, after which the retry timer is to fire.
    pub retry_after: Option<u64>,
    /// Whether the user's close handler is to be called.
    pub deliver: bool,
}

/// What follows from an attempt to open a new transport handle.
#[derive(Copy, Clone, Debug, PartialEq, Eq, Structural)]
pub enum Attempt {
    /// The client has no use for the attempt: a handle that it produced is to
    /// be dropped, and nothing else is to be done.
    Discard,
    /// The new handle is the current one, with the given generation; the
    /// given adapters are to be installed on it.
    Bind { generation: u64, adapters: AdapterSet },
    /// No handle could be opened; the retry timer is to fire again after the
    /// given delay, in milliseconds.
    Retry { delay: u64 },
}

/// What a client is built from: where it connects to, which handlers the user
/// has set, and the backoff, if the client reconnects at all.
pub struct Settings {
    pub url: Seq<char>,
    pub protocols: Option<Seq<Seq<char>>>,
    pub handlers: HandlerSet,
    pub reconnect: Option<BackoffState>,
}

impl Settings {
    /// The settings that a client starts from: no subprotocol, no handler,
    /// and the standard backoff.
    pub open spec fn standard(url: Seq<char>) -> Self {
        Settings {
            url,
            protocols: None,
            handlers: HandlerSet { message: false, open: false, error: false, close: false },
            reconnect: Some(BackoffState::fresh(BackoffPolicy::standard())),
        }
    }

    /// The adapters that a transport handle of this client gets. Messages and
    /// errors need one where the user has a handler for them. Open and close
    /// always have one: the client follows the status of the handle by them,
    /// resets the backoff on the one and schedules the retry on the other.
    pub open spec fn adapters(self) -> AdapterSet {
        AdapterSet {
            message: self.handlers.message,
            open: true,
            error: self.handlers.error,
            close: true,
        }
    }

    /// The same settings with another state of the backoff.
    pub open spec fn with_backoff(self, backoff: BackoffState) -> Self {
        Settings { reconnect: Some(backoff), ..self }
    }
}

/// The state of a client.
pub struct CoreState {
    pub settings: Settings,
    /// Whether the user has asked for the connection to be closed.
    pub closing: bool,
    /// The generation of the current transport handle.
    pub generation: u64,
    /// The status of the current transport handle as the client has recorded
    /// it from the notifications and closes it was given.
    pub status: ReadyState,
    pub retry: RetryState,
    /// The adapters installed on the current transport handle.
    pub adapters: AdapterSet,
}

/// Whether a message may be sent on a handle whose status the transport
/// reports as the number `live`: whether that status is open.
pub open spec fn may_send(live: u16) -> bool {
    ReadyState::of(live) == ReadyState::Open
}

/// Whether a close code may be given: 1000, 1005, or one of 3000 to 4999.
pub open spec fn valid_close_code(code: u16) -> bool {
    code == NORMAL_CLOSURE || code == NO_STATUS || FIRST_CUSTOM_CODE <= code <= LAST_CUSTOM_CODE
}

impl CoreState {
    /// What every reachable state satisfies: the status is one of the four
    /// defined ones; the backoff is well formed; a retry is scheduled or
    /// under way only while the connection is closed and the client
    /// reconnects; while a retry is under way another generation is left; and
    /// the adapters are those that the settings call for.
    pub open spec fn wf(self) -> bool {
        &&& !(self.status is Other)
        &&& (self.settings.reconnect matches Some(backoff) ==> backoff.wf())
        &&& (self.retry != RetryState::Idle ==> self.status == ReadyState::Closed
            && self.settings.reconnect is Some)
        &&& (self.retry == RetryState::Attempting ==> self.generation < u64::MAX)
        &&& self.adapters == self.settings.adapters()
    }

    /// The state of a client whose first transport handle has just been
    /// opened.
    pub open spec fn init(settings: Settings) -> Self {
        CoreState {
            settings,
            closing: false,
            generation: 0,
            status: ReadyState::Connecting,
            retry: RetryState::Idle,
            adapters: settings.adapters(),
        }
    }

    /// Whether a notification of the given generation comes from the current
    /// transport handle.
    pub open spec fn current(self, generation: u64) -> bool {
        generation == self.generation
    }

    /// Whether a notification of the given generation is heard: it comes from
    /// the current transport handle, and that handle has not been closed.
    pub open spec fn hears(self, generation: u64) -> bool {
        self.current(generation) && self.status != ReadyState::Closed
    }

    /// The state after an open notification: a connecting handle is open, and
    /// the backoff is reset.
    pub open spec fn opened(self, generation: u64) -> Self {
        if !self.hears(generation) {
            self
        } else {
            CoreState {
                settings: match self.settings.reconnect {
                    Some(backoff) => self.settings.with_backoff(backoff.restart()),
                    None => self.settings,
                },
                status: if self.status == ReadyState::Connecting {
                    ReadyState::Open
                } else {
                    self.status
                },
                ..self
            }
        }
    }

    /// Whether an open notification is passed to the user's handler.
    pub open spec fn delivers_open(self, generation: u64) -> bool {
        self.hears(generation) && self.settings.handlers.open
    }

    /// Whether a message notification is passed to the user's handler.
    pub open spec fn delivers_message(self, generation: u64) -> bool {
        self.hears(generation) && self.settings.handlers.message
    }

    /// Whether an error notification is passed to the user's handler.
    pub open spec fn delivers_error(self, generation: u64) -> bool {
        self.hears(generation) && self.settings.handlers.error
    }

    /// Whether a close notification is passed to the user's handler.
    pub open spec fn delivers_close(self, generation: u64) -> bool {
        self.hears(generation) && self.settings.handlers.close
    }

    /// Whether a close notification starts a reconnect sequence: it is
    /// heard, the user has not asked for the close, and the client reconnects.
    pub open spec fn reconnects_on_close(self, generation: u64) -> bool {
        &&& self.hears(generation)
        &&& !self.closing
        &&& self.settings.reconnect is Some
    }

    /// The state after a close notification: the handle is closed, and where
    /// a reconnect sequence starts, a retry is scheduled and the backoff has
    /// moved on.
    pub open spec fn closed(self, generation: u64) -> Self {
        if !self.hears(generation) {
            self
        } else if self.reconnects_on_close(generation) {
            CoreState {
                settings: self.settings.with_backoff(self.settings.reconnect->0.advance()),
                status: ReadyState::Closed,
                retry: RetryState::Scheduled,
                ..self
            }
        } else {
            CoreState { status: ReadyState::Closed, ..self }
        }
    }

    /// What a close notification asks of the host.
    pub open spec fn close_reaction(self, generation: u64, sample: u32) -> CloseReaction {
        CloseReaction {
            retry_after: if self.reconnects_on_close(generation) {
                Some(self.settings.reconnect->0.delay(sample) as u64)
            } else {
                None
            },
            deliver: self.delivers_close(generation),
        }
    }

    /// The state after a notification. Messages and errors leave the state as
    /// it is.
    pub open spec fn notified(self, generation: u64, event: WsEvent) -> Self {
        match event {
            WsEvent::Open => self.opened(generation),
            WsEvent::Close => self.closed(generation),
            _ => self,
        }
    }

    /// Whether a notification is passed to the user's handler for it: whether
    /// it is heard and the user has that handler.
    pub open spec fn delivers(self, generation: u64, event: WsEvent) -> bool {
        match event {
            WsEvent::Open => self.delivers_open(generation),
            WsEvent::Message(_) => self.delivers_message(generation),
            WsEvent::Error => self.delivers_error(generation),
            WsEvent::Close => self.delivers_close(generation),
        }
    }

    /// The delay after which a notification has the retry timer fire, if it
    /// starts a reconnect sequence. Only a close notification can.
    pub open spec fn retry_after(self, generation: u64, event: WsEvent, sample: u32) -> Option<
        u64,
    > {
        match event {
            WsEvent::Close => self.close_reaction(generation, sample).retry_after,
            _ => None,
        }
    }

    /// Whether the firing of the retry timer leads to an attempt to connect:
    /// a retry is scheduled, the user has not asked for a close in the
    /// meantime, and a generation is left for the new handle.
    pub open spec fn attempts_on_retry(self) -> bool {
        self.retry == RetryState::Scheduled && !self.closing && self.generation < u64::MAX
    }

    /// The state after the retry timer has fired.
    pub open spec fn retry_fired(self) -> Self {
        if self.retry != RetryState::Scheduled {
            self
        } else if self.attempts_on_retry() {
            CoreState { retry: RetryState::Attempting, ..self }
        } else {
            CoreState { retry: RetryState::Idle, ..self }
        }
    }

    /// Whether the outcome of an attempt to connect is taken up: an attempt
    /// is under way, and the user has not asked for a close in the meantime.
    pub open spec fn takes_attempt(self) -> bool {
        self.retry == RetryState::Attempting && !self.closing
    }

    /// Whether a new handle is taken as the current one.
    pub open spec fn binds(self, opened: bool) -> bool {
        self.takes_attempt() && opened && self.generation < u64::MAX
    }

    /// Whether a failed attempt is followed by another retry.
    pub open spec fn retries(self, opened: bool) -> bool {
        self.takes_attempt() && !opened && self.settings.reconnect is Some
    }

    /// The state after an attempt to connect: a new handle is the current one
    /// and is connecting; or the connection stays closed and the next retry
    /// is scheduled; or the attempt counts for nothing and no retry is left.
    pub open spec fn attempted(self, opened: bool) -> Self {
        if self.retry != RetryState::Attempting {
            self
        } else if self.binds(opened) {
            CoreState {
                generation: (self.generation + 1) as u64,
                status: ReadyState::Connecting,
                retry: RetryState::Idle,
                adapters: self.settings.adapters(),
                ..self
            }
        } else if self.retries(opened) {
            CoreState {
                settings: self.settings.with_backoff(self.settings.reconnect->0.advance()),
                retry: RetryState::Scheduled,
                ..self
            }
        } else {
            CoreState { retry: RetryState::Idle, ..self }
        }
    }

    /// What an attempt to connect asks of the host.
    pub open spec fn attempt_reaction(self, opened: bool, sample: u32) -> Attempt {
        if self.binds(opened) {
            Attempt::Bind {
                generation: (self.generation + 1) as u64,
                adapters: self.settings.adapters(),
            }
        } else if self.retries(opened) {
            Attempt::Retry { delay: self.settings.reconnect->0.delay(sample) as u64 }
        } else {
            Attempt::Discard
        }
    }

    /// The error, if any, with which a close by the user is refused. Only
    /// the first close of a client can be refused, and it is refused for its
    /// arguments alone, whatever the status: the code is looked at before the
    /// reason. Every later close is a no-op and is never refused.
    pub open spec fn close_error(self, code: u16, reason_bytes: Option<usize>) -> Option<
        CloseError,
    > {
        if self.closing {
            None
        } else if !valid_close_code(code) {
            Some(CloseError::InvalidCode(code))
        } else if reason_bytes is Some && reason_bytes->0 > MAX_REASON_BYTES {
            Some(CloseError::ReasonTooLong(reason_bytes->0))
        } else {
            None
        }
    }

    /// Whether a close by the user is passed on to the transport: it is the
    /// first close of the client, and it is not refused.
    pub open spec fn requests_close(self, code: u16, reason_bytes: Option<usize>) -> bool {
        !self.closing && self.close_error(code, reason_bytes) is None
    }

    /// The state after a close by the user. The first close gives up
    /// reconnecting for good, also where it is refused; where it is passed on
    /// to the transport, a handle that is connecting or open is closing.
    /// Every later close leaves the state as it is.
    pub open spec fn user_closed(self, code: u16, reason_bytes: Option<usize>) -> Self {
        CoreState {
            closing: true,
            status: if self.requests_close(code, reason_bytes) && (self.status
                == ReadyState::Connecting || self.status == ReadyState::Open) {
                ReadyState::Closing
            } else {
                self.status
            },
            ..self
        }
    }
}

} // verus!
