//! Supervisor core for a single UCI chess engine: the text codec, the
//! session state machine and the single-slot registry that the host's
//! command handlers consult. Nothing here performs I/O; every operation
//! returns the lines that the caller has to write to the engine.

pub mod command;
pub mod message;
pub mod pattern;
pub mod registry;
pub mod session;
