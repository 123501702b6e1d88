//! Verified management of pseudo-terminal sessions.
//!
//! A manager creates OS-backed terminal sessions, each a PTY with a shell
//! spawned on its subordinate side, and lets callers write input, resize the
//! terminal and tear sessions down by an opaque id.  Each session's output
//! is drained by a reader loop whose decisions are the verified state
//! machine in `reader`; the registry of live sessions and the manager's
//! operations carry exact contracts over the map from id to write log.

pub mod backend;
pub mod command;
pub mod errors;
pub mod laws;
pub mod manager;
pub mod reader;
pub mod registry;

pub use errors::TermError;
pub use manager::SpawnedSession;
pub use manager::TerminalManager;
pub use reader::ReadEvent;
pub use reader::ReaderState;
pub use reader::SinkEvent;
pub use reader::TerminalData;
pub use reader::TerminalExit;
