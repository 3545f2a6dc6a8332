//! The life of the child process: its exit status, what a wait call's
//! report means, and how long to go on waiting.

use vstd::prelude::*;

verus! {

/// How the child process stands.
#[derive(Debug, Clone, Copy, PartialEq, Eq, Structural)]
pub enum ExitStatus {
    /// It exited with this code.
    Code(i32),
    /// It was killed by this signal.
    Signal(i32),
    /// It is still running.
    Running,
    /// It was stopped by this signal.
    Stopped(i32),
}

impl ExitStatus {
    /// Whether the child exited with code 0. Any other exit code, a death
    /// by signal, a stop and a running child are no success.
    pub fn success(&self) -> (ok: bool)
        ensures
            ok == (*self == ExitStatus::Code(0)),
    {
        match self {
            ExitStatus::Code(code) => *code == 0,
            _ => false,
        }
    }

    /// The exit code, if the child exited.
    pub fn exit_code(&self) -> (code: Option<i32>)
        ensures
            code == (match *self {
                ExitStatus::Code(c) => Some(c),
                _ => None,
            }),
    {
        match self {
            ExitStatus::Code(code) => Some(*code),
            _ => None,
        }
    }

    /// The signal that killed the child, if one did.
    pub fn signal(&self) -> (signal: Option<i32>)
        ensures
            signal == (match *self {
                ExitStatus::Signal(s) => Some(s),
                _ => None,
            }),
    {
        match self {
            ExitStatus::Signal(signal) => Some(*signal),
            _ => None,
        }
    }

    /// Whether the child has not ended.
    pub fn is_running(&self) -> (running: bool)
        ensures
            running == (*self == ExitStatus::Running),
    {
        match self {
            ExitStatus::Running => true,
            _ => false,
        }
    }
}

/// What one non-blocking wait call on the child reported.
#[derive(Debug, Clone, Copy, PartialEq, Eq, Structural)]
pub enum WaitReport {
    /// The child is alive and has not changed state.
    StillAlive,
    /// The child exited with this code.
    Exited(i32),
    /// The child was killed by this signal.
    Signaled(i32),
    /// The child was stopped by this signal.
    Stopped(i32),
    /// The child was continued.
    Continued,
    /// Some other change of state.
    Other,
    /// There is no such child: it was reaped elsewhere.
    NoChild,
    /// The call failed with this error number.
    Failed(i32),
}

/// The status that a wait report stands for. A child that is alive,
/// continued or in some other state is running. A child that is no longer
/// there is taken to have exited with code 0. Only a failed call is an
/// error, and it keeps its error number.
pub open spec fn status_of(report: WaitReport) -> Result<ExitStatus, i32> {
    match report {
        WaitReport::StillAlive => Ok(ExitStatus::Running),
        WaitReport::Exited(code) => Ok(ExitStatus::Code(code)),
        WaitReport::Signaled(signal) => Ok(ExitStatus::Signal(signal)),
        WaitReport::Stopped(signal) => Ok(ExitStatus::Stopped(signal)),
        WaitReport::Continued => Ok(ExitStatus::Running),
        WaitReport::Other => Ok(ExitStatus::Running),
        WaitReport::NoChild => Ok(ExitStatus::Code(0)),
        WaitReport::Failed(errno) => Err(errno),
    }
}

/// What a waiting caller does next.
#[derive(Debug, Clone, Copy, PartialEq, Eq, Structural)]
pub enum WaitStep {
    /// The child has ended or stopped: hand out this status.
    Finished(ExitStatus),
    /// The time allowed is over and the child still runs.
    TimedOut,
    /// Sleep for so many milliseconds, then ask again.
    PollAfter(u64),
}

/// The pause between two wait calls, in milliseconds.
pub const POLL_INTERVAL_MS: u64 = 10;

/// What a waiting caller does about `status`: any status but `Running`
/// ends the wait; a running child ends it without a result once
/// `elapsed_ms` has reached the time allowed, if a time is set; else the
/// caller sleeps for the poll interval and asks again.
pub open spec fn wait_step(status: ExitStatus, elapsed_ms: u64, timeout_ms: Option<u64>) -> WaitStep {
    if status != ExitStatus::Running {
        WaitStep::Finished(status)
    } else if timeout_ms.is_some() && elapsed_ms >= timeout_ms.unwrap() {
        WaitStep::TimedOut
    } else {
        WaitStep::PollAfter(POLL_INTERVAL_MS)
    }
}

/// Keeps track of one child process.
#[derive(Debug, Clone, Copy, PartialEq, Eq, Structural)]
pub struct ProcessManager {
    pub child_pid: i32,
}

impl ProcessManager {
    /// A manager for the child with this process id.
    pub fn new(child_pid: i32) -> (manager: Self)
        ensures
            manager.child_pid == child_pid,
    {
        ProcessManager { child_pid }
    }

    /// The process id of the child.
    pub fn pid(&self) -> (pid: i32)
        ensures
            pid == self.child_pid,
    {
        self.child_pid
    }

    /// The status that one non-blocking wait call's report stands for.
    pub fn try_wait(&self, report: WaitReport) -> (status: Result<ExitStatus, i32>)
        ensures
            status == status_of(report),
    {
        match report {
            WaitReport::StillAlive => Ok(ExitStatus::Running),
            WaitReport::Exited(code) => Ok(ExitStatus::Code(code)),
            WaitReport::Signaled(signal) => Ok(ExitStatus::Signal(signal)),
            WaitReport::Stopped(signal) => Ok(ExitStatus::Stopped(signal)),
            WaitReport::Continued => Ok(ExitStatus::Running),
            WaitReport::Other => Ok(ExitStatus::Running),
            WaitReport::NoChild => Ok(ExitStatus::Code(0)),
            WaitReport::Failed(errno) => Err(errno),
        }
    }

    /// Whether the child is still running, going by a wait call's report.
    pub fn is_running(&self, report: WaitReport) -> (running: Result<bool, i32>)
        ensures
            running == (match status_of(report) {
                Ok(status) => Ok::<bool, i32>(status == ExitStatus::Running),
                Err(errno) => Err::<bool, i32>(errno),
            }),
    {
        match self.try_wait(report) {
            Ok(status) => Ok(status.is_running()),
            Err(errno) => Err(errno),
        }
    }

    /// One round of waiting for the child to end, however long it takes:
    /// the report of a wait call is turned into a status, and the caller
    /// hands out any status but `Running`, else sleeps for the poll
    /// interval and asks again.
    pub fn wait_for_exit(&self, report: WaitReport) -> (step: Result<WaitStep, i32>)
        ensures
            step == (match status_of(report) {
                Ok(status) => Ok::<WaitStep, i32>(wait_step(status, 0, None)),
                Err(errno) => Err::<WaitStep, i32>(errno),
            }),
    {
        match self.try_wait(report) {
            Ok(status) => {
                if status.is_running() {
                    Ok(WaitStep::PollAfter(POLL_INTERVAL_MS))
                } else {
                    Ok(WaitStep::Finished(status))
                }
            },
            Err(errno) => Err(errno),
        }
    }

    /// One round of waiting for the child to end within `timeout_ms`
    /// milliseconds, `elapsed_ms` of which are over: as `wait_for_exit`,
    /// but a child that still runs when the time is over ends the wait
    /// without a result.
    pub fn wait_for_exit_timeout(&self, report: WaitReport, elapsed_ms: u64, timeout_ms: u64) -> (step:
        Result<WaitStep, i32>)
        ensures
            step == (match status_of(report) {
                Ok(status) => Ok::<WaitStep, i32>(wait_step(status, elapsed_ms, Some(timeout_ms))),
                Err(errno) => Err::<WaitStep, i32>(errno),
            }),
    {
        match self.try_wait(report) {
            Ok(status) => {
                if !status.is_running() {
                    Ok(WaitStep::Finished(status))
                } else if elapsed_ms >= timeout_ms {
                    Ok(WaitStep::TimedOut)
                } else {
                    Ok(WaitStep::PollAfter(POLL_INTERVAL_MS))
                }
            },
            Err(errno) => Err(errno),
        }
    }
}

} // verus!
