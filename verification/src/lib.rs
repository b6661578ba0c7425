//! A verified core for a connection-to-process protocol bridge.
//!
//! Each client connection is paired with one spawned engine process that
//! speaks a line-oriented text protocol: commands are written as single
//! newline-terminated lines, and a response is a run of output lines
//! terminated by a blank line. This crate holds the verified logic of that
//! bridge: the envelope data model, the line framing and joining rules, and
//! the per-session state machine that decides, for every transport or
//! process event, the next state and the next I/O action. The unverified
//! shell that performs the actual I/O drives the machine one event at a
//! time.

pub mod envelope;
pub mod framing;
pub mod session;
pub mod trace;
