//! A reconnecting client for a WebSocket-style connection, written as a
//! deterministic engine.
//!
//! The engine owns every decision of the connection's life: when a lost
//! connection is retried and after what delay, which notifications still
//! count, whether a message may be sent, and what a user-initiated close does.
//! It performs no I/O. The host opens and closes transport handles, reads
//! their status, runs timers, draws random samples and calls the user's
//! handlers; it tells the engine what happened and carries out what the
//! engine answers.

pub mod cb;
pub mod common;
pub mod policy;
