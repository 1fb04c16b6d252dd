//! The client as its user sees it.

pub mod builder;
pub mod laws;
pub mod machine;
pub mod model;

use crate::cb::builder::WebSocketBuilder;
use crate::cb::machine::{reason_bytes, CloseRequest, WebSocketCore};
use crate::cb::model::{
    may_send, AdapterSet, Attempt, CloseError, CoreState, RetryState, SendError, Settings,
    NO_STATUS,
};
use crate::common::{ReadyState, ReconnectConfig, WsEvent, WsMessage};
use vstd::prelude::*;

verus! {

/// What follows from a notification, in the order in which the host acts on
/// it: first the retry is scheduled, then the user's handler runs.
#[derive(Clone, Debug, PartialEq, Eq)]
pub struct Reaction {
    /// The delay, in milliseconds, after which the retry timer is to fire.
    pub retry_after: Option<u64>,
    /// The notification, where the user's handler for it is to be called.
    pub deliver: Option<WsEvent>,
}

/// A reconnecting client.
///
/// The client stands for one logical connection. Behind it the host holds one
/// transport handle at a time; when that handle is lost without the user's
/// asking, the client has the host open another after a delay that grows from
/// one attempt to the next. Handles are numbered by generation, from 0.
pub struct WebSocket(WebSocketCore);

impl View for WebSocket {
    type V = CoreState;

    closed spec fn view(&self) -> CoreState {
        self.0@
    }
}

/// The close code in effect: the one given, or 1005 where none is given.
pub open spec fn close_code(code: Option<u16>) -> u16 {
    match code {
        Some(code) => code,
        None => NO_STATUS,
    }
}

impl WebSocket {
    /// Wraps an engine.
    pub fn new(core: WebSocketCore) -> (ws: Self)
        ensures
            ws@ == core@,
    {
        WebSocket(core)
    }

    /// Begins the settings of a client for `url`.
    pub fn connect(url: String) -> (builder: WebSocketBuilder)
        ensures
            builder@ == Settings::standard(url@),
    {
        WebSocketBuilder::new(url)
    }

    /// Closes the connection and gives up reconnecting for good. Returns what
    /// the host is to ask of the current transport handle, if anything. A
    /// code that is left out is taken as 1005, "no status given".
    ///
    /// The first close of a client is passed on to the transport whatever the
    /// status of the handle, unless it is refused: the code must be 1000,
    /// 1005 or one of 3000 to 4999, and the reason at most 123 bytes long. A
    /// refused close gives up reconnecting all the same. Every later close is
    /// a no-op: it changes nothing, asks nothing and is not refused, whatever
    /// it is given.
    pub fn close(&mut self, code: Option<u16>, reason: Option<String>) -> (request: Result<
        Option<CloseRequest>,
        CloseError,
    >)
        ensures
            final(self)@ == old(self)@.user_closed(close_code(code), reason_bytes(reason)),
            final(self)@.wf(),
            old(self)@.closing ==> final(self)@ == old(self)@ && request == Ok::<
                Option<CloseRequest>,
                CloseError,
            >(None),
            match old(self)@.close_error(close_code(code), reason_bytes(reason)) {
                Some(error) => request == Err::<Option<CloseRequest>, CloseError>(error),
                None => request == Ok::<Option<CloseRequest>, CloseError>(
                    if old(self)@.closing {
                        None
                    } else {
                        Some(CloseRequest { code: close_code(code), reason })
                    },
                ),
            },
    {
        let code = match code {
            Some(code) => code,
            None => NO_STATUS,
        };
        self.0.close(code, reason)
    }

    /// The status of the connection as the transport reports it now. `live`
    /// is the status number that the host has just read from the current
    /// transport handle; nothing that the client has recorded enters into it.
    pub fn ready_state(&self, live: u16) -> (state: ReadyState)
        ensures
            state == ReadyState::of(live),
    {
        self.0.ready_state(live)
    }

    /// The status that the client has recorded from the notifications and
    /// closes it was given. The decisions on retries go by it.
    pub fn status(&self) -> (status: ReadyState)
        ensures
            status == self@.status,
            self@.wf(),
    {
        self.0.status()
    }

    /// Decides whether a message may be sent: it may exactly where the
    /// current transport handle is open now. `live` is the status number that
    /// the host has just read from that handle. Returns the message, for the
    /// host to hand to the transport as one frame.
    pub fn send<E>(&self, live: u16, msg: WsMessage) -> (frame: Result<WsMessage, SendError<E>>)
        ensures
            may_send(live) ==> frame == Ok::<WsMessage, SendError<E>>(msg),
            !may_send(live) ==> frame == Err::<WsMessage, SendError<E>>(
                SendError::NotOpen(ReadyState::of(live)),
            ),
    {
        self.0.send(live, msg)
    }

    /// Takes what the transport answered to a message that `send` let
    /// through: the message is sent exactly where the transport took it, and
    /// a refusal of the transport goes to the caller.
    pub fn send_finished<E>(outcome: Result<(), E>) -> (sent: Result<(), SendError<E>>)
        ensures
            match outcome {
                Ok(_) => sent == Ok::<(), SendError<E>>(()),
                Err(cause) => sent == Err::<(), SendError<E>>(SendError::Transport(cause)),
            },
    {
        WebSocketCore::send_finished(outcome)
    }

    /// The URL that every transport handle of this client is opened for.
    pub fn url(&self) -> (url: String)
        ensures
            url@ == self@.settings.url,
    {
        self.0.url().clone()
    }

    /// The subprotocols that every transport handle of this client offers.
    pub fn protocols(&self) -> (protocols: &Option<Vec<String>>)
        ensures
            protocols.deep_view() == self@.settings.protocols,
    {
        self.0.protocols()
    }

    /// The generation of the current transport handle.
    pub fn generation(&self) -> (generation: u64)
        ensures
            generation == self@.generation,
    {
        self.0.generation()
    }

    /// The adapters installed on the current transport handle.
    pub fn adapters(&self) -> (adapters: AdapterSet)
        ensures
            adapters == self@.adapters,
            adapters == self@.settings.adapters(),
    {
        self.0.adapters()
    }

    /// Whether the user has asked for the connection to be closed.
    pub fn is_closing(&self) -> (closing: bool)
        ensures
            closing == self@.closing,
    {
        self.0.is_closing()
    }

    /// Where the client stands with its retry.
    pub fn retry(&self) -> (retry: RetryState)
        ensures
            retry == self@.retry,
    {
        self.0.retry()
    }

    /// The backoff as it stands; `None` where the client does not reconnect.
    pub fn reconnect(&self) -> (cfg: Option<ReconnectConfig>)
        ensures
            cfg is Some == self@.settings.reconnect is Some,
            cfg matches Some(c) ==> self@.settings.reconnect == Some(c@),
    {
        self.0.reconnect()
    }

    /// Takes a notification from the transport handle of the given
    /// generation. `sample` is a uniformly drawn random number; it is used
    /// only where a retry is scheduled.
    ///
    /// A notification is heard where its handle is the current one and has
    /// not been closed; any other changes nothing and asks for nothing. An
    /// open notification resets the backoff and makes a connecting handle
    /// open; a close notification makes the connection closed and, where the
    /// client reconnects and the user has not asked for the close, schedules
    /// a retry; messages and errors are only passed on.
    pub fn handle_event(&mut self, generation: u64, event: WsEvent, sample: u32) -> (reaction:
        Reaction)
        ensures
            final(self)@ == old(self)@.notified(generation, event),
            final(self)@.wf(),
            reaction.retry_after == old(self)@.retry_after(generation, event, sample),
            reaction.deliver == (if old(self)@.delivers(generation, event) {
                Some(event)
            } else {
                None
            }),
    {
        let (retry_after, deliver) = match &event {
            WsEvent::Open => (None, self.0.on_open(generation)),
            WsEvent::Message(_) => (None, self.0.on_message(generation)),
            WsEvent::Error => (None, self.0.on_error(generation)),
            WsEvent::Close => {
                let reaction = self.0.on_close(generation, sample);
                (reaction.retry_after, reaction.deliver)
            },
        };
        Reaction {
            retry_after,
            deliver: if deliver {
                Some(event)
            } else {
                None
            },
        }
    }

    /// Takes the firing of the retry timer. Returns whether the host is to
    /// try now to open a new transport handle, for the same URL and
    /// subprotocols, and to report the outcome to `attempt_finished`.
    pub fn retry_fired(&mut self) -> (attempt: bool)
        ensures
            final(self)@ == old(self)@.retry_fired(),
            final(self)@.wf(),
            attempt == old(self)@.attempts_on_retry(),
    {
        self.0.on_retry()
    }

    /// Takes the outcome of the attempt that `retry_fired` asked for: whether
    /// a new transport handle was opened. `sample` is a uniformly drawn
    /// random number; it is used only where another retry is scheduled.
    pub fn attempt_finished(&mut self, opened: bool, sample: u32) -> (reaction: Attempt)
        ensures
            final(self)@ == old(self)@.attempted(opened),
            final(self)@.wf(),
            reaction == old(self)@.attempt_reaction(opened, sample),
    {
        self.0.on_attempt(opened, sample)
    }
}

} // verus!
