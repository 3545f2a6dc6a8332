//! The signal relay: which signals reach the child.

use vstd::prelude::*;

verus! {

/// A process-control signal that was delivered to the emulator.
#[derive(Debug, Clone, Copy, PartialEq, Eq, Structural)]
pub enum SignalEvent {
    Interrupt,
    Terminate,
    WindowChange,
}

/// A signal that can be sent to the child.
#[derive(Debug, Clone, Copy, PartialEq, Eq, Structural)]
pub enum ChildSignal {
    /// The interrupt of Ctrl+C.
    Interrupt,
    /// A request to terminate.
    Terminate,
    /// A kill that cannot be caught.
    Kill,
    /// The window size changed.
    WindowChange,
}

impl SignalEvent {
    /// The signal that is forwarded to the child when this event arrives.
    /// Interrupt and terminate express what the user wants and go on to
    /// the child. A window change is not forwarded: the caller resizes the
    /// grid and the terminal, and the resize notifies the child.
    pub fn forwarded(&self) -> (signal: Option<ChildSignal>)
        ensures
            signal == (match *self {
                SignalEvent::Interrupt => Some(ChildSignal::Interrupt),
                SignalEvent::Terminate => Some(ChildSignal::Terminate),
                SignalEvent::WindowChange => None,
            }),
    {
        match self {
            SignalEvent::Interrupt => Some(ChildSignal::Interrupt),
            SignalEvent::Terminate => Some(ChildSignal::Terminate),
            SignalEvent::WindowChange => None,
        }
    }
}

} // verus!
