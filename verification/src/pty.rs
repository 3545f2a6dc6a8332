//! Decision logic of the pseudo-terminal session.

pub mod host;
pub mod lifecycle;
pub mod natural;
pub mod recovery;
pub mod signals;

pub use host::PtyError;
pub use lifecycle::{ExitStatus, ProcessManager};
pub use recovery::{ConnectionStats, ResilientPtyHost, RetryConfig};
pub use signals::SignalEvent;
