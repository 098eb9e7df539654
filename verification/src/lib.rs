//! Driver core for a terminal game runner: the verified logic behind a small
//! program that launches an external game process, feeds it a seed, keeps its
//! clock ticking on an accelerating cadence, relays allowed keystrokes, and
//! shuts everything down together when the game's output stream closes.
//!
//! The process, terminal and timer plumbing lives outside this crate; what is
//! here is every decision that plumbing has to make: the tick cadence, the
//! keystroke filter, the command-line encoding of everything written to the
//! child's input, the shared-stream write discipline, the liveness flag, and
//! the session's error taxonomy and state machine.

pub mod cadence;
pub mod keys;
pub mod liveness;
pub mod protocol;
pub mod relay;
pub mod session;
pub mod stream;
