//! Per-message timing checkpoints for a TLS handshake.
//!
//! A connection emits a [`checkpoint::TimingCheckpoint`] when negotiation starts, for each
//! handshake message it processes, and when negotiation ends. Names and role numbers follow
//! s2n-tls, so that timings can be compared across implementations.
//!
//! # Epoch model
//!
//! Every `timestamp_ns` is relative: nanoseconds since the `NEGOTIATE_START` of the same
//! connection, which itself is stamped zero. The clock is [`std::time::Instant`], a monotonic,
//! non-decreasing clock. On Linux that is `CLOCK_MONOTONIC`, which is subject to NTP slewing,
//! whereas s2n-tls reads `CLOCK_MONOTONIC_RAW`; over a sub-second handshake the difference is
//! negligible.
//!
//! # Layout
//!
//! - [`role`]: the side of a connection and its role number.
//! - [`handshake`]: handshake types and the messages that carry them.
//! - [`names`]: the checkpoint name of a handshake message.
//! - [`checkpoint`]: checkpoints and the subscribers that receive them.
//! - [`outbox`]: delivery to a subscriber, and the account of it.
//! - [`clock`]: elapsed time since the epoch.
//! - [`state`]: the per-connection state and what each event emits.
//! - [`trace`]: what holds of all the checkpoints of one connection.

pub mod checkpoint;
pub mod clock;
pub mod handshake;
pub mod names;
pub mod outbox;
pub mod role;
pub mod state;
pub mod trace;
