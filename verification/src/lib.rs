//! Coordinator for an asynchronous word-guessing game.
//!
//! A player exchanges messages with a session coordinator, which in turn
//! talks to a word oracle holding a secret word.  The coordinator runs one
//! session per player through a finite state machine, correlates oracle
//! replies with suspended player calls, enforces a guess limit, and
//! terminates sessions whose oracle never answers via a scheduled timeout.
//!
//! The state machine itself is a pure function from session state and
//! incoming message to new state and outward effect; the surrounding
//! message transport (an actor runtime in a deployment, a scheduler loop in
//! the bundled driver) performs the effects and feeds events back in.

pub mod laws;
pub mod model;
pub mod registry;
pub mod session;
pub mod session_io;
pub mod word;
pub mod word_io;
