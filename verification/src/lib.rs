//! Engine of a terminal-session wrapper: it models the machinery that runs a
//! child program inside a pseudo-terminal (PTY), relays bytes between the
//! real terminal and the child, tees child output to an optional log file,
//! accepts out-of-band control input from a named pipe, and translates the
//! child's termination into a process exit code.
//!
//! The decisions are verified here; an unverified driver owns the
//! descriptors and performs them:
//!
//! - [`session`] — the session configuration, the setup steps it calls for,
//!   and the argument vector the child may exec;
//! - [`relay`] — the multiplexed relay loop as a state machine: the driver
//!   performs the blocking waits and reads and feeds each observation to
//!   [`relay::RelayState::step`], which decides the next state and the
//!   writes to perform;
//! - [`trace`] — the session-long guarantees of that machine, proved over
//!   whole event sequences: input reaches the child verbatim, the log
//!   receives exactly what the terminal receives, and only master end of
//!   file ends the loop;
//! - [`fifo`] — creation of the control-input FIFO, where an entry that
//!   already exists is success;
//! - [`status`] — the translation of the child's termination into the exit
//!   code owed.

pub mod bytes;
pub mod fifo;
pub mod relay;
pub mod session;
pub mod status;
pub mod trace;
