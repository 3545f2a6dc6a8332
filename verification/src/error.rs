//! The errors of the command-block recorder, of context capture and of
//! rendering.

use crate::pty::host::IoKind;
use vstd::prelude::*;

verus! {

/// What can go wrong outside the terminal session. Failures of outside
/// services are kept as their message.
#[derive(Debug, PartialEq, Eq)]
pub enum TermindError {
    ShellExecution(String),
    Io(IoKind),
    Pty(String),
    AiProvider(String),
    Configuration(String),
    Json(String),
    Database(String),
    DateTime(String),
}

/// What a renderer of the grid reports when it fails, each with its
/// message.
#[derive(Debug, PartialEq, Eq)]
pub enum RenderError {
    GpuInit(String),
    RenderFailed(String),
    Window(String),
    Font(String),
}

} // verus!
