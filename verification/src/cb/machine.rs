//! The executable client: the state machine of `model`, step by step.

use crate::cb::builder::WebSocketBuilder;
use crate::cb::model::{
    may_send, AdapterSet, Attempt, CloseError, CloseReaction, CoreState, RetryState, SendError,
    FIRST_CUSTOM_CODE, LAST_CUSTOM_CODE, MAX_REASON_BYTES, NORMAL_CLOSURE, NO_STATUS,
};
use crate::common::{ReadyState, ReconnectConfig, WsMessage};
use vstd::prelude::*;
use vstd::utf8::encode_utf8;

verus! {

/// What the host is to ask of the transport when the user closes the
/// connection.
#[derive(Clone, Debug, PartialEq, Eq)]
pub struct CloseRequest {
    pub code: u16,
    pub reason: Option<String>,
}

/// The length of a close reason, in bytes of UTF-8.
pub open spec fn reason_bytes(reason: Option<String>) -> Option<usize> {
    match reason {
        Some(text) => Some(encode_utf8(text@).len() as usize),
        None => None,
    }
}

/// The argument for a timer that counts whole milliseconds in an `i32`: the
/// delay, or the longest such time where the delay is longer.
pub fn timer_millis(delay: u64) -> (millis: i32)
    ensures
        millis == (if delay > i32::MAX {
            i32::MAX as int
        } else {
            delay as int
        }),
{
    if delay > 0x7fff_ffff {
        i32::MAX
    } else {
        delay as i32
    }
}

/// The engine of a client. It holds the settings, the generation and status
/// of the current transport handle, the state of the retry, and whether the
/// user has asked for the connection to be closed.
///
/// The host reports each notification, each firing of the retry timer and the
/// outcome of each attempt to connect, and does what the answer says.
pub struct WebSocketCore {
    builder: WebSocketBuilder,
    is_closing: bool,
    generation: u64,
    state: ReadyState,
    retry: RetryState,
    cb_store: AdapterSet,
}

impl View for WebSocketCore {
    type V = CoreState;

    closed spec fn view(&self) -> CoreState {
        CoreState {
            settings: self.builder@,
            closing: self.is_closing,
            generation: self.generation,
            status: self.state,
            retry: self.retry,
            adapters: self.cb_store,
        }
    }
}

impl WebSocketCore {
    /// Every client is in a well-formed state.
    #[verifier::type_invariant]
    pub open spec fn inv(self) -> bool {
        self@.wf()
    }

    /// The engine of a client with the given settings, whose first transport
    /// handle has just been opened: it is connecting, as generation 0.
    pub fn new(builder: WebSocketBuilder) -> (core: Self)
        ensures
            core@ == CoreState::init(builder@),
            core@.wf(),
    {
        proof {
            if let Some(cfg) = builder.reconnect {
                use_type_invariant(&cfg);
            }
        }
        let cb_store = builder.adapters();
        WebSocketCore {
            builder,
            is_closing: false,
            generation: 0,
            state: ReadyState::Connecting,
            retry: RetryState::Idle,
            cb_store,
        }
    }

    /// The status of the connection as the transport reports it now. `live`
    /// is the status number that the host has just read from the current
    /// transport handle; nothing that the client has recorded enters into it.
    pub fn ready_state(&self, live: u16) -> (state: ReadyState)
        ensures
            state == ReadyState::of(live),
    {
        ReadyState::from(live)
    }

    /// The status that the client has recorded from the notifications and
    /// closes it was given. The decisions on retries go by it.
    pub fn status(&self) -> (status: ReadyState)
        ensures
            status == self@.status,
            self@.wf(),
    {
        proof {
            use_type_invariant(self);
        }
        self.state
    }

    /// The generation of the current transport handle.
    pub fn generation(&self) -> (generation: u64)
        ensures
            generation == self@.generation,
    {
        self.generation
    }

    /// The adapters installed on the current transport handle.
    pub fn adapters(&self) -> (adapters: AdapterSet)
        ensures
            adapters == self@.adapters,
            adapters == self@.settings.adapters(),
    {
        proof {
            use_type_invariant(self);
        }
        self.cb_store
    }

    /// Whether the user has asked for the connection to be closed.
    pub fn is_closing(&self) -> (closing: bool)
        ensures
            closing == self@.closing,
    {
        self.is_closing
    }

    /// Where the client stands with its retry.
    pub fn retry(&self) -> (retry: RetryState)
        ensures
            retry == self@.retry,
    {
        self.retry
    }

    /// The backoff as it stands; `None` where the client does not reconnect.
    pub fn reconnect(&self) -> (cfg: Option<ReconnectConfig>)
        ensures
            cfg is Some == self@.settings.reconnect is Some,
            cfg matches Some(c) ==> self@.settings.reconnect == Some(c@),
    {
        self.builder.reconnect
    }

    /// The URL that every transport handle of this client is opened for.
    pub fn url(&self) -> (url: &String)
        ensures
            url@ == self@.settings.url,
    {
        &self.builder.url
    }

    /// The subprotocols that every transport handle of this client offers.
    pub fn protocols(&self) -> (protocols: &Option<Vec<String>>)
        ensures
            protocols.deep_view() == self@.settings.protocols,
    {
        &self.builder.protocols
    }

    /// Whether a notification of the given generation is heard: whether it
    /// comes from the current transport handle and that handle has not been
    /// closed.
    pub fn hears(&self, generation: u64) -> (heard: bool)
        ensures
            heard == self@.hears(generation),
            self@.wf(),
    {
        proof {
            use_type_invariant(self);
        }
        generation == self.generation && self.state != ReadyState::Closed
    }

    /// Takes an open notification from the handle of the given generation.
    /// Returns whether the user's open handler is to be called.
    ///
    /// The notification resets the backoff and makes a connecting handle
    /// open. It does nothing where it is not heard: where the handle is not
    /// the current one, or has been closed.
    pub fn on_open(&mut self, generation: u64) -> (deliver: bool)
        ensures
            final(self)@ == old(self)@.opened(generation),
            deliver == old(self)@.delivers_open(generation),
            final(self)@.wf(),
    {
        proof {
            use_type_invariant(&*self);
        }
        if !self.hears(generation) {
            return false;
        }
        if let Some(cfg) = self.builder.reconnect {
            let mut cfg = cfg;
            cfg.reset();
            self.builder.reconnect = Some(cfg);
        }
        if self.state == ReadyState::Connecting {
            self.state = ReadyState::Open;
        }
        self.builder.handlers.open
    }

    /// Takes a message notification from the handle of the given generation.
    /// Returns whether the message is to be passed to the user's handler:
    /// whether the notification is heard and the user has a handler.
    pub fn on_message(&self, generation: u64) -> (deliver: bool)
        ensures
            deliver == self@.delivers_message(generation),
            self@.wf(),
    {
        proof {
            use_type_invariant(self);
        }
        self.hears(generation) && self.builder.handlers.message
    }

    /// Takes an error notification from the handle of the given generation.
    /// Returns whether the user's error handler is to be called. An error
    /// never starts a retry: the close notification that follows it does.
    pub fn on_error(&self, generation: u64) -> (deliver: bool)
        ensures
            deliver == self@.delivers_error(generation),
            self@.wf(),
    {
        proof {
            use_type_invariant(self);
        }
        self.hears(generation) && self.builder.handlers.error
    }

    /// Takes a close notification from the handle of the given generation.
    /// `sample` is a uniformly drawn random number.
    ///
    /// The notification makes the connection closed. Where the user has not
    /// asked for the close and the client reconnects, the answer holds the
    /// delay after which the retry timer is to fire. The host schedules the
    /// retry before it calls the user's close handler. The notification does
    /// nothing where it is not heard: where the handle is not the current
    /// one, or has been closed before.
    pub fn on_close(&mut self, generation: u64, sample: u32) -> (reaction: CloseReaction)
        ensures
            final(self)@ == old(self)@.closed(generation),
            reaction == old(self)@.close_reaction(generation, sample),
            final(self)@.wf(),
    {
        proof {
            use_type_invariant(&*self);
        }
        if !self.hears(generation) {
            return CloseReaction { retry_after: None, deliver: false };
        }
        self.state = ReadyState::Closed;
        let mut retry_after: Option<u64> = None;
        if !self.is_closing {
            if let Some(cfg) = self.builder.reconnect {
                let mut cfg = cfg;
                retry_after = Some(cfg.next_backoff(sample));
                self.builder.reconnect = Some(cfg);
                self.retry = RetryState::Scheduled;
            }
        }
        CloseReaction { retry_after, deliver: self.builder.handlers.close }
    }

    /// Takes the firing of the retry timer. Returns whether the host is to
    /// try now to open a new transport handle, for the same URL and
    /// subprotocols, and to report the outcome to `on_attempt`.
    ///
    /// The answer is no where no retry is scheduled, and where the user has
    /// asked for the connection to be closed while the timer was running. It
    /// is no as well once the generations are used up, after `u64::MAX`
    /// replacements: the connection then stays closed.
    pub fn on_retry(&mut self) -> (attempt: bool)
        ensures
            final(self)@ == old(self)@.retry_fired(),
            attempt == old(self)@.attempts_on_retry(),
            final(self)@.wf(),
    {
        proof {
            use_type_invariant(&*self);
        }
        if self.retry != RetryState::Scheduled {
            return false;
        }
        if self.is_closing || self.generation == u64::MAX {
            self.retry = RetryState::Idle;
            false
        } else {
            self.retry = RetryState::Attempting;
            true
        }
    }

    /// Takes the outcome of the attempt that `on_retry` asked for: whether a
    /// new transport handle was opened. `sample` is a uniformly drawn random
    /// number.
    ///
    /// A new handle replaces the current one and starts out connecting. A
    /// failure leaves the connection closed and schedules the next retry,
    /// with the next delay of the backoff. Where no attempt was asked for, or
    /// the user has asked for the connection to be closed in the meantime,
    /// the outcome is discarded.
    pub fn on_attempt(&mut self, opened: bool, sample: u32) -> (reaction: Attempt)
        ensures
            final(self)@ == old(self)@.attempted(opened),
            reaction == old(self)@.attempt_reaction(opened, sample),
            final(self)@.wf(),
    {
        proof {
            use_type_invariant(&*self);
        }
        if self.retry != RetryState::Attempting {
            return Attempt::Discard;
        }
        if self.is_closing {
            self.retry = RetryState::Idle;
            return Attempt::Discard;
        }
        if opened {
            self.retry = RetryState::Idle;
            self.generation = self.generation + 1;
            self.state = ReadyState::Connecting;
            let adapters = self.builder.adapters();
            self.cb_store = adapters;
            return Attempt::Bind { generation: self.generation, adapters };
        }
        match self.builder.reconnect {
            Some(cfg) => {
                let mut cfg = cfg;
                let delay = cfg.next_backoff(sample);
                self.builder.reconnect = Some(cfg);
                self.retry = RetryState::Scheduled;
                Attempt::Retry { delay }
            },
            None => {
                self.retry = RetryState::Idle;
                Attempt::Discard
            },
        }
    }

    /// Closes the connection at the user's wish and gives up reconnecting for
    /// good. Returns what the host is to ask of the current transport handle,
    /// if anything.
    ///
    /// The first close of a client is passed on to the transport whatever the
    /// status of the handle, unless it is refused: the code must be 1000,
    /// 1005 or one of 3000 to 4999, and the reason at most 123 bytes long;
    /// the code is looked at first. A refused close gives up reconnecting all
    /// the same. Every later close is a no-op: it changes nothing, asks
    /// nothing and is not refused, whatever it is given.
    pub fn close(&mut self, code: u16, reason: Option<String>) -> (request: Result<
        Option<CloseRequest>,
        CloseError,
    >)
        ensures
            final(self)@ == old(self)@.user_closed(code, reason_bytes(reason)),
            final(self)@.wf(),
            old(self)@.closing ==> final(self)@ == old(self)@ && request == Ok::<
                Option<CloseRequest>,
                CloseError,
            >(None),
            match old(self)@.close_error(code, reason_bytes(reason)) {
                Some(error) => request == Err::<Option<CloseRequest>, CloseError>(error),
                None => request == Ok::<Option<CloseRequest>, CloseError>(
                    if old(self)@.closing {
                        None
                    } else {
                        Some(CloseRequest { code, reason })
                    },
                ),
            },
    {
        proof {
            use_type_invariant(&*self);
        }
        if self.is_closing {
            return Ok(None);
        }
        self.is_closing = true;
        if !(code == NORMAL_CLOSURE || code == NO_STATUS || (FIRST_CUSTOM_CODE <= code && code
            <= LAST_CUSTOM_CODE)) {
            return Err(CloseError::InvalidCode(code));
        }
        if let Some(text) = &reason {
            let length = text.as_str().len();
            if length > MAX_REASON_BYTES {
                return Err(CloseError::ReasonTooLong(length));
            }
        }
        if self.state == ReadyState::Connecting || self.state == ReadyState::Open {
            self.state = ReadyState::Closing;
        }
        Ok(Some(CloseRequest { code, reason }))
    }

    /// Decides whether a message may be sent: it may exactly where the
    /// current transport handle is open now. `live` is the status number that
    /// the host has just read from that handle. Returns the message, for the
    /// host to hand to the transport as one frame.
    pub fn send<E>(&self, live: u16, msg: WsMessage) -> (frame: Result<WsMessage, SendError<E>>)
        ensures
            may_send(live) ==> frame == Ok::<WsMessage, SendError<E>>(msg),
            !may_send(live) ==> frame == Err::<WsMessage, SendError<E>>(
                SendError::NotOpen(ReadyState::of(live)),
            ),
    {
        let state = ReadyState::from(live);
        if state == ReadyState::Open {
            Ok(msg)
        } else {
            Err(SendError::NotOpen(state))
        }
    }

    /// Takes what the transport answered to a message that `send` let
    /// through: the message is sent exactly where the transport took it, and
    /// a refusal of the transport goes to the caller.
    pub fn send_finished<E>(outcome: Result<(), E>) -> (sent: Result<(), SendError<E>>)
        ensures
            match outcome {
                Ok(_) => sent == Ok::<(), SendError<E>>(()),
                Err(cause) => sent == Err::<(), SendError<E>>(SendError::Transport(cause)),
            },
    {
        match outcome {
            Ok(_) => Ok(()),
            Err(cause) => Err(SendError::Transport(cause)),
        }
    }
}

} // verus!
