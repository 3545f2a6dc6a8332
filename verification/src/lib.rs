//! Termind core: a terminal-emulation engine.
//!
//! The crate holds the screen model of a terminal, the interpreter that
//! applies the VT100/ANSI control protocol to it, and the decision logic
//! around them: the recovery policy of the pseudo-terminal session, the
//! exit status of the child, the signal relay, the command blocks and the
//! context of a command. System calls, clocks and asynchronous waiting are
//! the caller's: the library takes what they brought and says what follows.

pub mod blocks;
pub mod error;
pub mod pty;
pub mod renderer;

pub use blocks::BlockDetector;
pub use error::TermindError;
pub use pty::ProcessManager;
pub use renderer::colors;
pub use renderer::{TerminalParser, TextGrid};
