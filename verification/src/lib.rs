//! A line-oriented bridge between an interactive client channel and the
//! standard streams of a spawned command-line agent.
//!
//! The crate holds the decisions of such a bridge and leaves the transport to
//! its caller: which command an agent name stands for, how text is framed in
//! both directions, how a session reacts to each event, and how the captured
//! output of a one-shot run is put together.

pub mod command;
pub mod frame;
pub mod oneshot;
pub mod session;
pub mod text;
pub mod trace;
