//! The settings of a client, gathered before it is built.

use crate::cb::machine::WebSocketCore;
use crate::cb::model::{AdapterSet, ConstructionError, CoreState, HandlerSet, Settings};
use crate::cb::WebSocket;
use crate::common::ReconnectConfig;
use vstd::prelude::*;

verus! {

/// Collects the settings of a client: the URL, the subprotocols, which of the
/// four handlers the user has, and the backoff.
///
/// A client reconnects with the standard backoff unless `reconnect` gives it
/// another or `no_reconnect` takes it away.
pub struct WebSocketBuilder {
    /// The URL to connect to.
    pub url: String,
    /// The subprotocols to offer, in order of preference.
    pub protocols: Option<Vec<String>>,
    /// Which handlers the user has set.
    pub handlers: HandlerSet,
    /// The backoff; `None` where the client does not reconnect.
    pub reconnect: Option<ReconnectConfig>,
}

impl View for WebSocketBuilder {
    type V = Settings;

    open spec fn view(&self) -> Settings {
        Settings {
            url: self.url@,
            protocols: self.protocols.deep_view(),
            handlers: self.handlers,
            reconnect: match self.reconnect {
                Some(cfg) => Some(cfg@),
                None => None,
            },
        }
    }
}

impl WebSocketBuilder {
    /// The settings of a client for `url` that offers no subprotocol, has no
    /// handler, and reconnects with the standard backoff.
    pub fn new(url: String) -> (builder: Self)
        ensures
            builder@ == Settings::standard(url@),
    {
        WebSocketBuilder {
            url,
            protocols: None,
            handlers: HandlerSet { message: false, open: false, error: false, close: false },
            reconnect: Some(ReconnectConfig::default()),
        }
    }

    /// The client for these settings. `opened` is the outcome of the host's
    /// attempt to open the first transport handle, for this URL and these
    /// subprotocols.
    ///
    /// With a handle, the client starts out connecting, with that handle as
    /// generation 0; the handle is given back beside the client. Without one
    /// there is no client and the transport's error goes back to the caller:
    /// only later attempts are retried.
    pub fn build<T, E>(self, opened: Result<T, E>) -> (client: Result<
        (WebSocket, T),
        ConstructionError<E>,
    >)
        ensures
            match opened {
                Ok(handle) => client matches Ok(pair) && pair.0@ == CoreState::init(self@)
                    && pair.0@.wf() && pair.1 == handle,
                Err(cause) => client == Err::<(WebSocket, T), ConstructionError<E>>(
                    ConstructionError { cause },
                ),
            },
    {
        match opened {
            Ok(handle) => Ok((WebSocket::new(WebSocketCore::new(self)), handle)),
            Err(cause) => Err(ConstructionError { cause }),
        }
    }

    /// Records that the user has a handler for messages.
    pub fn onmessage(self) -> (builder: Self)
        ensures
            builder@ == (Settings {
                handlers: HandlerSet { message: true, ..self@.handlers },
                ..self@
            }),
    {
        WebSocketBuilder { handlers: HandlerSet { message: true, ..self.handlers }, ..self }
    }

    /// Records that the user has a handler for the open notification.
    pub fn onopen(self) -> (builder: Self)
        ensures
            builder@ == (Settings { handlers: HandlerSet { open: true, ..self@.handlers }, ..self@ }),
    {
        WebSocketBuilder { handlers: HandlerSet { open: true, ..self.handlers }, ..self }
    }

    /// Records that the user has a handler for errors.
    pub fn onerror(self) -> (builder: Self)
        ensures
            builder@ == (Settings {
                handlers: HandlerSet { error: true, ..self@.handlers },
                ..self@
            }),
    {
        WebSocketBuilder { handlers: HandlerSet { error: true, ..self.handlers }, ..self }
    }

    /// Records that the user has a handler for the close notification.
    pub fn onclose(self) -> (builder: Self)
        ensures
            builder@ == (Settings {
                handlers: HandlerSet { close: true, ..self@.handlers },
                ..self@
            }),
    {
        WebSocketBuilder { handlers: HandlerSet { close: true, ..self.handlers }, ..self }
    }

    /// Sets the subprotocols to offer.
    pub fn protocols(self, protos: Vec<String>) -> (builder: Self)
        ensures
            builder@ == (Settings { protocols: Some(protos.deep_view()), ..self@ }),
    {
        WebSocketBuilder { protocols: Some(protos), ..self }
    }

    /// Replaces the backoff.
    pub fn reconnect(self, cfg: ReconnectConfig) -> (builder: Self)
        ensures
            builder@ == (Settings { reconnect: Some(cfg@), ..self@ }),
    {
        WebSocketBuilder { reconnect: Some(cfg), ..self }
    }

    /// Makes the client one that never reconnects: a close notification is
    /// then final.
    pub fn no_reconnect(self) -> (builder: Self)
        ensures
            builder@ == (Settings { reconnect: None, ..self@ }),
    {
        WebSocketBuilder { reconnect: None, ..self }
    }

    /// The adapters that each transport handle of the client gets.
    pub fn adapters(&self) -> (adapters: AdapterSet)
        ensures
            adapters == self@.adapters(),
    {
        AdapterSet {
            message: self.handlers.message,
            open: true,
            error: self.handlers.error,
            close: true,
        }
    }
}

} // verus!
