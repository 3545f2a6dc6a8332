//! What the pseudo-terminal host decides: which shell to run, what the
//! child process does before it becomes that shell, and what a read from
//! the terminal amounts to. The system calls themselves are the caller's.

use vstd::prelude::*;

verus! {

/// The kinds of input/output failure that the recovery policy tells apart.
#[derive(Debug, Clone, Copy, PartialEq, Eq, Structural)]
pub enum IoKind {
    BrokenPipe,
    ConnectionAborted,
    UnexpectedEof,
    TimedOut,
    Interrupted,
    WouldBlock,
    PermissionDenied,
    NotFound,
    /// Any other kind.
    Other,
}

/// What can go wrong with a pseudo-terminal.
#[derive(Debug, PartialEq, Eq)]
pub enum PtyError {
    /// The system refused to create the pseudo-terminal; holds the error
    /// number.
    PtyCreation(i32),
    /// The process could not be forked.
    Fork(String),
    /// A read, write or control call on the terminal failed.
    Io(IoKind),
    /// No shell to run was found.
    ShellNotFound(String),
    /// The environment of the child could not be set up.
    EnvironmentSetup,
}

/// The name that the child's `TERM` variable is set to.
pub const TERM_NAME: &'static str = "xterm-256color";

/// How many shells are tried when the preferred one cannot be used.
pub const FALLBACK_SHELLS: usize = 5;

/// The shells that are tried, in this order, when the preferred one cannot
/// be used.
pub open spec fn fallback_shells() -> Seq<Seq<char>> {
    seq!["/bin/zsh"@, "/usr/bin/zsh"@, "/bin/bash"@, "/usr/bin/bash"@, "/bin/sh"@]
}

/// The index of the first fallback shell from `from` on that is present,
/// or the number of fallback shells when none is.
pub open spec fn first_present(present: Seq<bool>, from: int) -> int
    decreases FALLBACK_SHELLS - from,
{
    if from < 0 || from >= FALLBACK_SHELLS {
        FALLBACK_SHELLS as int
    } else if from < present.len() && present[from] {
        from
    } else {
        first_present(present, from + 1)
    }
}

/// The path of the fallback shell at `index`, if there is one.
pub fn fallback_shell(index: usize) -> (path: Option<String>)
    ensures
        match path {
            Some(text) => index < FALLBACK_SHELLS && text@ == fallback_shells()[index as int],
            None => index >= FALLBACK_SHELLS,
        },
{
    if index == 0 {
        Some("/bin/zsh".to_owned())
    } else if index == 1 {
        Some("/usr/bin/zsh".to_owned())
    } else if index == 2 {
        Some("/bin/bash".to_owned())
    } else if index == 3 {
        Some("/usr/bin/bash".to_owned())
    } else if index == 4 {
        Some("/bin/sh".to_owned())
    } else {
        None
    }
}

/// Chooses the shell to run. `preferred` is the user's shell, if one is
/// set, and `preferred_exists` says whether it is on disk; `present[i]`
/// says whether the fallback shell `i` is on disk. The preferred shell is
/// taken when it exists, else the first fallback shell that does; when
/// there is none the choice fails with `ShellNotFound`.
pub fn detect_shell(preferred: Option<String>, preferred_exists: bool, present: &Vec<bool>) -> (shell:
    Result<String, PtyError>)
    ensures
        match shell {
            Ok(path) => if preferred.is_some() && preferred_exists {
                path == preferred.unwrap()
            } else {
                first_present(present@, 0) < FALLBACK_SHELLS && path@ == fallback_shells()[first_present(
                    present@,
                    0,
                )]
            },
            Err(PtyError::ShellNotFound(reason)) => !(preferred.is_some() && preferred_exists)
                && first_present(present@, 0) >= FALLBACK_SHELLS && reason@
                == "No suitable shell found"@,
            Err(_) => false,
        },
{
    if preferred_exists && preferred.is_some() {
        return Ok(preferred.unwrap());
    }
    let mut index: usize = 0;
    while index < FALLBACK_SHELLS
        invariant
            !(preferred.is_some() && preferred_exists),
            index <= FALLBACK_SHELLS,
            first_present(present@, 0) == first_present(present@, index as int),
        decreases FALLBACK_SHELLS - index,
    {
        if index < present.len() && present[index] {
            if let Some(path) = fallback_shell(index) {
                return Ok(path);
            }
        }
        index += 1;
    }
    Err(PtyError::ShellNotFound("No suitable shell found".to_owned()))
}

/// How one read from the terminal ended.
#[derive(Debug, Clone, Copy, PartialEq, Eq, Structural)]
pub enum ReadOutcome {
    /// So many bytes arrived at the front of the buffer; 0 at the end of
    /// the stream.
    Read(usize),
    /// Nothing arrived within the time allowed.
    TimedOut,
    /// The read failed.
    Failed(IoKind),
}

/// The bytes that a read delivered: the filled front of `buffer`, or
/// nothing when the read timed out; a failed read is an `Io` error. A
/// timeout is no error. A count beyond the buffer stands for all of it.
pub fn read_result(buffer: Vec<u8>, outcome: ReadOutcome) -> (data: Result<Vec<u8>, PtyError>)
    ensures
        match outcome {
            ReadOutcome::Read(count) => data.is_ok() && data.unwrap()@ == buffer@.take(
                if count <= buffer@.len() {
                    count as int
                } else {
                    buffer@.len() as int
                },
            ),
            ReadOutcome::TimedOut => data.is_ok() && data.unwrap()@ == Seq::<u8>::empty(),
            ReadOutcome::Failed(kind) => data == Err::<Vec<u8>, PtyError>(PtyError::Io(kind)),
        },
{
    match outcome {
        ReadOutcome::Read(count) => {
            let mut data = buffer;
            data.truncate(count);
            assert(count <= buffer@.len() ==> data@ =~= buffer@.take(count as int));
            assert(count > buffer@.len() ==> data@ =~= buffer@.take(buffer@.len() as int));
            Ok(data)
        },
        ReadOutcome::TimedOut => Ok(Vec::new()),
        ReadOutcome::Failed(kind) => Err(PtyError::Io(kind)),
    }
}

/// One step of what the child process does between the fork and the
/// shell.
#[derive(Debug, Clone, Copy, PartialEq, Eq, Structural)]
pub enum ChildStep {
    /// Become the leader of a new session.
    NewSession,
    /// Open the slave side of the pseudo-terminal by its name.
    OpenSlave,
    /// Duplicate the slave onto this descriptor: 0, 1 or 2.
    Redirect(u8),
    /// Close the descriptor that the slave was opened on.
    CloseSlave,
    /// Make descriptor 0 the controlling terminal.
    ControllingTerminal,
    /// Set `TERM` and, where the home directory is known, `HOME`.
    SetEnvironment,
    /// Replace the process image with the shell.
    Exec,
}

/// What the child does after a step.
#[derive(Debug, Clone, Copy, PartialEq, Eq, Structural)]
pub enum ChildAction {
    /// Go on with this step.
    Run(ChildStep),
    /// Leave the process with this exit code.
    Exit(i32),
}

impl ChildStep {
    /// The step that follows this one when all goes well; `Exec` has none.
    pub open spec fn successor(self) -> ChildStep {
        match self {
            ChildStep::NewSession => ChildStep::OpenSlave,
            ChildStep::OpenSlave => ChildStep::Redirect(0),
            ChildStep::Redirect(fd) => if fd < 2 {
                ChildStep::Redirect((fd + 1) as u8)
            } else {
                ChildStep::CloseSlave
            },
            ChildStep::CloseSlave => ChildStep::ControllingTerminal,
            ChildStep::ControllingTerminal => ChildStep::SetEnvironment,
            ChildStep::SetEnvironment => ChildStep::Exec,
            ChildStep::Exec => ChildStep::Exec,
        }
    }

    /// Whether the child goes on when this step fails: only a failure to
    /// close the descriptor that the slave was opened on is passed over.
    pub open spec fn may_fail(self) -> bool {
        self == ChildStep::CloseSlave
    }

    /// What follows this step, given whether it succeeded.
    pub open spec fn next_action(self, succeeded: bool) -> ChildAction {
        if succeeded || self.may_fail() {
            ChildAction::Run(self.successor())
        } else {
            ChildAction::Exit(1)
        }
    }

    /// The first step of the child.
    pub fn first() -> (step: ChildStep)
        ensures
            step == ChildStep::NewSession,
    {
        ChildStep::NewSession
    }

    /// What the child does after this step, given whether it succeeded. A
    /// failed step ends the child with exit code 1, so that it never
    /// returns into the parent's code; only a failure to close the
    /// descriptor that the slave was opened on is passed over. A successful
    /// `Exec` has nothing after it and is not asked about.
    pub fn after(self, succeeded: bool) -> (action: ChildAction)
        requires
            !(self == ChildStep::Exec && succeeded),
        ensures
            action == self.next_action(succeeded),
    {
        if !succeeded {
            if let ChildStep::CloseSlave = self {
                return ChildAction::Run(ChildStep::ControllingTerminal);
            }
            return ChildAction::Exit(1);
        }
        match self {
            ChildStep::NewSession => ChildAction::Run(ChildStep::OpenSlave),
            ChildStep::OpenSlave => ChildAction::Run(ChildStep::Redirect(0)),
            ChildStep::Redirect(fd) => {
                if fd < 2 {
                    ChildAction::Run(ChildStep::Redirect(fd + 1))
                } else {
                    ChildAction::Run(ChildStep::CloseSlave)
                }
            },
            ChildStep::CloseSlave => ChildAction::Run(ChildStep::ControllingTerminal),
            ChildStep::ControllingTerminal => ChildAction::Run(ChildStep::SetEnvironment),
            ChildStep::SetEnvironment => ChildAction::Run(ChildStep::Exec),
            ChildStep::Exec => ChildAction::Run(ChildStep::Exec),
        }
    }
}

} // verus!
