//! The recovery policy of a resilient terminal session: how failures are
//! classified, how long to wait before the next attempt, and what the
//! session does after each outcome of a spawn, a write, a read or a
//! resize. The session owns the interpreter, so that a resize reaches the
//! grid even while no terminal is connected.

use crate::pty::host::{IoKind, PtyError};
use crate::renderer::machine::at_ground;
use crate::renderer::model::at_most;
use crate::renderer::parser::{run, TerminalParser};
use crate::renderer::screen::Screen;
use crate::pty::natural::{at_most_u64, divided, from_u64, times, value_of};
use vstd::arithmetic::div_mod::{
    lemma_div_by_multiple, lemma_div_denominator, lemma_div_is_ordered,
    lemma_div_multiples_vanish_quotient, lemma_div_pos_is_pos,
};
use vstd::arithmetic::power::{lemma_pow0, lemma_pow1, lemma_pow_positive, pow};
use vstd::prelude::*;

verus! {

/// How often and how patiently a session retries.
#[derive(Debug, Clone, Copy, PartialEq, Eq, Structural)]
pub struct RetryConfig {
    /// Number of attempts before an operation gives up.
    pub max_retries: u32,
    /// The wait before the first retry, in milliseconds.
    pub base_delay_ms: u64,
    /// The longest wait, in milliseconds.
    pub max_delay_ms: u64,
    /// The factor by which the wait grows from one retry to the next, as a
    /// fraction: numerator and denominator.
    pub backoff_numerator: u32,
    pub backoff_denominator: u32,
    /// Number of failures in a row from which a failure of an unknown kind
    /// makes the session drop its connection.
    pub failure_threshold: u32,
}

impl RetryConfig {
    /// A usable configuration: the growth factor has a denominator.
    pub open spec fn wf(self) -> bool {
        self.backoff_denominator >= 1
    }

    /// The default: 5 attempts, waits from 100 ms doubling up to 30 s, and
    /// a threshold of 3 failures.
    pub open spec fn standard() -> RetryConfig {
        RetryConfig {
            max_retries: 5,
            base_delay_ms: 100,
            max_delay_ms: 30000,
            backoff_numerator: 2,
            backoff_denominator: 1,
            failure_threshold: 3,
        }
    }

    /// The wait after attempt `attempt` before it is capped, in
    /// milliseconds: the base delay times the growth factor to the power
    /// of `attempt`, rounded down to whole milliseconds once.
    pub open spec fn uncapped_delay(self, attempt: nat) -> int {
        self.base_delay_ms * pow(self.backoff_numerator as int, attempt) / pow(
            self.backoff_denominator as int,
            attempt,
        )
    }

    /// The wait after attempt `attempt`, in milliseconds: the base delay
    /// times the growth factor to the power of `attempt`, never more than
    /// the longest wait.
    pub open spec fn delay_after(self, attempt: nat) -> int {
        at_most(self.uncapped_delay(attempt), self.max_delay_ms as int)
    }

    /// The base delay times a power of the numerator is no negative
    /// number, and a power of the denominator is positive.
    pub proof fn lemma_powers_have_signs(self, attempt: nat)
        requires
            self.wf(),
        ensures
            pow(self.backoff_numerator as int, attempt) >= 0,
            self.base_delay_ms * pow(self.backoff_numerator as int, attempt) >= 0,
            pow(self.backoff_denominator as int, attempt) > 0,
            self.uncapped_delay(attempt) >= 0,
        decreases attempt,
    {
        reveal(pow);
        let top = pow(self.backoff_numerator as int, attempt);
        let bottom = pow(self.backoff_denominator as int, attempt);
        lemma_pow_positive(self.backoff_denominator as int, attempt);
        if attempt > 0 {
            self.lemma_powers_have_signs((attempt - 1) as nat);
            let below = pow(self.backoff_numerator as int, (attempt - 1) as nat);
            assert(self.backoff_numerator * below >= 0) by (nonlinear_arith)
                requires
                    self.backoff_numerator >= 0,
                    below >= 0,
            ;
        }
        assert(self.base_delay_ms * top >= 0) by (nonlinear_arith)
            requires
                self.base_delay_ms >= 0,
                top >= 0,
        ;
        lemma_div_pos_is_pos(self.base_delay_ms * top, bottom);
    }

    /// From one attempt to the next the uncapped wait does not shrink
    /// when the growth factor is at least 1, and does not grow when the
    /// factor is at most 1.
    pub proof fn lemma_delay_step(self, attempt: nat)
        requires
            self.wf(),
        ensures
            self.backoff_numerator >= self.backoff_denominator ==> self.uncapped_delay(attempt)
                <= self.uncapped_delay(attempt + 1),
            self.backoff_numerator <= self.backoff_denominator ==> self.uncapped_delay(
                attempt + 1,
            ) <= self.uncapped_delay(attempt),
    {
        reveal(pow);
        self.lemma_powers_have_signs(attempt);
        let up = self.backoff_numerator as int;
        let down = self.backoff_denominator as int;
        let top = self.base_delay_ms * pow(up, attempt);
        let bottom = pow(down, attempt);
        assert(self.base_delay_ms * pow(up, attempt + 1) == up * top) by (nonlinear_arith)
            requires
                pow(up, attempt + 1) == up * pow(up, attempt),
                top == self.base_delay_ms * pow(up, attempt),
        ;
        assert(pow(down, attempt + 1) == down * bottom);
        lemma_div_multiples_vanish_quotient(down, top, bottom);
        if up >= down {
            assert(down * top <= up * top) by (nonlinear_arith)
                requires
                    down <= up,
                    top >= 0,
            ;
            lemma_div_is_ordered(down * top, up * top, down * bottom);
        }
        if up <= down {
            assert(up * top <= down * top) by (nonlinear_arith)
                requires
                    up <= down,
                    top >= 0,
            ;
            lemma_div_is_ordered(up * top, down * top, down * bottom);
        }
    }

    /// The uncapped wait after a later attempt is no smaller when the
    /// growth factor is at least 1, and no greater when the factor is at
    /// most 1.
    pub proof fn lemma_delay_is_monotone(self, attempt: nat, later: nat)
        requires
            self.wf(),
            attempt <= later,
        ensures
            self.backoff_numerator >= self.backoff_denominator ==> self.uncapped_delay(attempt)
                <= self.uncapped_delay(later),
            self.backoff_numerator <= self.backoff_denominator ==> self.uncapped_delay(later)
                <= self.uncapped_delay(attempt),
        decreases later,
    {
        if attempt < later {
            self.lemma_delay_is_monotone(attempt, (later - 1) as nat);
            self.lemma_delay_step((later - 1) as nat);
        }
    }

    /// The wait is never longer than the longest wait and never negative.
    /// With a growth factor of at least 1 it does not shrink from one
    /// attempt to a later one; with a factor of exactly 1 it is the base
    /// delay, capped.
    pub proof fn lemma_delay_bounds(self, attempt: nat, later: nat)
        requires
            self.wf(),
            attempt <= later,
        ensures
            0 <= self.delay_after(attempt) <= self.max_delay_ms,
            self.backoff_numerator >= self.backoff_denominator ==> self.delay_after(attempt)
                <= self.delay_after(later),
            self.backoff_numerator == self.backoff_denominator ==> self.delay_after(attempt)
                == at_most(self.base_delay_ms as int, self.max_delay_ms as int),
    {
        self.lemma_powers_have_signs(attempt);
        self.lemma_delay_is_monotone(attempt, later);
        if self.backoff_numerator == self.backoff_denominator {
            lemma_div_by_multiple(
                self.base_delay_ms as int,
                pow(self.backoff_denominator as int, attempt),
            );
        }
    }

    /// `number` divided `times` times by `divisor`, which is `number`
    /// divided by `divisor` to the power of `times`, rounded down once;
    /// never more than `cap`.
    fn shrunk(number: &Vec<u32>, divisor: u32, times: u32, cap: u64) -> (least: u64)
        requires
            divisor >= 1,
        ensures
            least == at_most(
                value_of(number@) as int / pow(divisor as int, times as nat),
                cap as int,
            ),
    {
        proof {
            reveal(pow);
            lemma_pow0(divisor as int);
        }
        if times == 0 {
            return at_most_u64(number, cap);
        }
        let mut quotient: Vec<u32> = divided(number, divisor);
        let mut done: u32 = 1;
        assert(pow(divisor as int, 1) == divisor) by {
            lemma_pow1(divisor as int);
        }
        while done < times
            invariant
                divisor >= 1,
                1 <= done <= times,
                value_of(quotient@) == value_of(number@) as int / pow(divisor as int, done as nat),
            decreases times - done,
        {
            proof {
                reveal(pow);
                let below = pow(divisor as int, done as nat);
                lemma_pow_positive(divisor as int, done as nat);
                lemma_div_denominator(value_of(number@) as int, below, divisor as int);
                assert(pow(divisor as int, (done + 1) as nat) == divisor * below);
                assert(below * divisor == divisor * below) by (nonlinear_arith);
            }
            quotient = divided(&quotient, divisor);
            done += 1;
        }
        at_most_u64(&quotient, cap)
    }

    /// The wait after attempt `attempt`, in milliseconds.
    pub fn calculate_delay(&self, attempt: u32) -> (delay: u64)
        requires
            self.wf(),
        ensures
            delay == self.delay_after(attempt as nat),
            delay <= self.max_delay_ms,
    {
        let cap: u64 = self.max_delay_ms;
        let up: u32 = self.backoff_numerator;
        let down: u32 = self.backoff_denominator;
        proof {
            self.lemma_delay_bounds(attempt as nat, attempt as nat);
        }
        if up == down {
            return if self.base_delay_ms <= cap {
                self.base_delay_ms
            } else {
                cap
            };
        }
        let mut product: Vec<u32> = from_u64(self.base_delay_ms);
        let mut grown: u32 = 0;
        // A wait that has reached the cap, or has sunk to nothing, stays
        // there, so the powers need not be taken further. Whether it has
        // is looked at after 1, 2, 4, 8, ... attempts, which keeps the
        // looking cheap against the multiplying.
        let mut look_at: u32 = 1;
        proof {
            lemma_pow0(up as int);
        }
        while grown < attempt
            invariant
                self.wf(),
                grown <= attempt,
                cap == self.max_delay_ms,
                up == self.backoff_numerator,
                down == self.backoff_denominator,
                value_of(product@) == self.base_delay_ms * pow(up as int, grown as nat),
            decreases attempt - grown,
        {
            if grown >= look_at {
                let shown: u64 = Self::shrunk(&product, down, grown, cap);
                proof {
                    self.lemma_delay_is_monotone(grown as nat, attempt as nat);
                    self.lemma_powers_have_signs(attempt as nat);
                    self.lemma_powers_have_signs(grown as nat);
                }
                if up > down && shown >= cap {
                    return cap;
                }
                if up < down && shown == 0 {
                    return 0;
                }
                look_at = if look_at <= u32::MAX / 2 {
                    look_at * 2
                } else {
                    u32::MAX
                };
            }
            product = times(&product, up);
            proof {
                reveal(pow);
                let below = pow(up as int, grown as nat);
                assert(self.base_delay_ms * below * up == self.base_delay_ms * (up * below))
                    by (nonlinear_arith);
            }
            grown += 1;
        }
        Self::shrunk(&product, down, attempt, cap)
    }
}

impl Default for RetryConfig {
    fn default() -> (config: Self)
        ensures
            config == RetryConfig::standard(),
            config.wf(),
    {
        RetryConfig {
            max_retries: 5,
            base_delay_ms: 100,
            max_delay_ms: 30000,
            backoff_numerator: 2,
            backoff_denominator: 1,
            failure_threshold: 3,
        }
    }
}

/// What a session does about a failure.
#[derive(Debug, Clone, Copy, PartialEq, Eq, Structural)]
pub enum RecoveryAction {
    /// The condition passes: wait and try again on the same connection.
    Retry,
    /// The connection is taken for dead: drop it and make a new one.
    Recreate,
    /// Nothing helps: hand the error to the caller.
    Fail,
}

/// The action that answers `error` when `consecutive_failures` failures
/// came in a row and the threshold is `failure_threshold`.
///
/// An input/output failure goes by its kind: a broken pipe, an aborted
/// connection and an unexpected end of stream recreate the connection; a
/// timeout, an interruption and a would-block are retried; a denied
/// permission and a missing resource fail. Any other kind recreates the
/// connection once the failures in a row have reached the threshold, and
/// is retried before. Of the other errors only a failure to create the
/// pseudo-terminal is retried; a missing shell, a failed fork and a
/// failed setup of the environment fail.
pub open spec fn recovery_action(
    error: PtyError,
    consecutive_failures: u32,
    failure_threshold: u32,
) -> RecoveryAction {
    match error {
        PtyError::Io(kind) => match kind {
            IoKind::BrokenPipe | IoKind::ConnectionAborted | IoKind::UnexpectedEof =>
                RecoveryAction::Recreate,
            IoKind::TimedOut | IoKind::Interrupted | IoKind::WouldBlock => RecoveryAction::Retry,
            IoKind::PermissionDenied | IoKind::NotFound => RecoveryAction::Fail,
            IoKind::Other => if consecutive_failures >= failure_threshold {
                RecoveryAction::Recreate
            } else {
                RecoveryAction::Retry
            },
        },
        PtyError::PtyCreation(_) => RecoveryAction::Retry,
        PtyError::Fork(_) => RecoveryAction::Fail,
        PtyError::ShellNotFound(_) => RecoveryAction::Fail,
        PtyError::EnvironmentSetup => RecoveryAction::Fail,
    }
}

/// The classification of input/output failures, whatever the count of
/// failures and the threshold: a broken pipe, an aborted connection and an
/// unexpected end of stream recreate the connection; a timeout, an
/// interruption and a would-block are retried; a denied permission and a
/// missing resource fail.
pub proof fn lemma_io_failures_classified(consecutive_failures: u32, failure_threshold: u32)
    ensures
        recovery_action(PtyError::Io(IoKind::BrokenPipe), consecutive_failures, failure_threshold)
            == RecoveryAction::Recreate,
        recovery_action(
            PtyError::Io(IoKind::ConnectionAborted),
            consecutive_failures,
            failure_threshold,
        ) == RecoveryAction::Recreate,
        recovery_action(
            PtyError::Io(IoKind::UnexpectedEof),
            consecutive_failures,
            failure_threshold,
        ) == RecoveryAction::Recreate,
        recovery_action(PtyError::Io(IoKind::TimedOut), consecutive_failures, failure_threshold)
            == RecoveryAction::Retry,
        recovery_action(PtyError::Io(IoKind::Interrupted), consecutive_failures, failure_threshold)
            == RecoveryAction::Retry,
        recovery_action(PtyError::Io(IoKind::WouldBlock), consecutive_failures, failure_threshold)
            == RecoveryAction::Retry,
        recovery_action(
            PtyError::Io(IoKind::PermissionDenied),
            consecutive_failures,
            failure_threshold,
        ) == RecoveryAction::Fail,
        recovery_action(PtyError::Io(IoKind::NotFound), consecutive_failures, failure_threshold)
            == RecoveryAction::Fail,
{
}

/// The classification of the errors that are no input/output failures,
/// whatever the count of failures and the threshold: a failure to create
/// the pseudo-terminal is retried, every other one fails.
pub proof fn lemma_other_failures_classified(
    error: PtyError,
    consecutive_failures: u32,
    failure_threshold: u32,
)
    requires
        !(error is Io),
    ensures
        recovery_action(error, consecutive_failures, failure_threshold) == (if error
            is PtyCreation {
            RecoveryAction::Retry
        } else {
            RecoveryAction::Fail
        }),
{
}

/// A summary of a session's connection.
#[derive(Debug, Clone, Copy, PartialEq, Eq, Structural)]
pub struct ConnectionStats {
    pub is_connected: bool,
    pub consecutive_failures: u32,
    /// When the last failure was recorded, in milliseconds.
    pub last_failure: Option<u64>,
}

/// What happened in a connection attempt.
#[derive(Debug, PartialEq, Eq)]
pub enum ConnectEvent {
    /// The caller wants a connection.
    Begin,
    /// A terminal was spawned.
    Spawned,
    /// The spawn failed; `attempt` counts the spawns that failed before it.
    SpawnFailed { attempt: u32, error: PtyError },
}

/// What the caller of a connection attempt does next.
#[derive(Debug, PartialEq, Eq)]
pub enum ConnectStep {
    /// The session is connected.
    Ready,
    /// Spawn a terminal.
    Spawn,
    /// Sleep for so many milliseconds, then spawn a terminal.
    SpawnAfter(u64),
    /// Give up with this error.
    Failed(PtyError),
}

/// What happened in a write.
#[derive(Debug, PartialEq, Eq)]
pub enum WriteEvent {
    /// The caller wants to write.
    Begin,
    /// The bytes were written and flushed.
    Written,
    /// The write failed; `attempt` counts the writes that failed before it.
    Failed { attempt: u32, error: PtyError },
}

/// What the caller of a write does next.
#[derive(Debug, PartialEq, Eq)]
pub enum WriteStep {
    /// Make sure of a connection, then write.
    Write,
    /// Sleep for so many milliseconds, make sure of a connection, then
    /// write.
    WriteAfter(u64),
    /// The write is done.
    Done,
    /// Give up with this error.
    Failed(PtyError),
}

/// What happened in a read.
#[derive(Debug, PartialEq, Eq)]
pub enum ReadEvent {
    /// The terminal delivered these bytes; none when nothing was there.
    Read(Vec<u8>),
    /// The read failed.
    Failed(PtyError),
    /// The connection that the read had lost was made anew.
    Reconnected,
    /// The connection that the read had lost could not be made anew.
    ReconnectFailed(PtyError),
}

/// What the caller of a read does next.
#[derive(Debug, PartialEq, Eq)]
pub enum ReadStep {
    /// Hand out these bytes.
    Done(Vec<u8>),
    /// The connection was dropped: make sure of a new one and report how
    /// that went, before anything is handed out.
    Reconnect,
    /// Give up with this error.
    Failed(PtyError),
}

/// A step of a read with its bytes as a plain sequence.
pub enum ReadStepView {
    Done(Seq<u8>),
    Reconnect,
    Failed(PtyError),
}

impl View for ReadStep {
    type V = ReadStepView;

    open spec fn view(&self) -> ReadStepView {
        match *self {
            ReadStep::Done(data) => ReadStepView::Done(data@),
            ReadStep::Reconnect => ReadStepView::Reconnect,
            ReadStep::Failed(error) => ReadStepView::Failed(error),
        }
    }
}

/// The state of a session as plain values.
pub struct SessionState {
    pub connected: bool,
    pub machine: vte::Parser,
    pub screen: Screen,
    pub config: RetryConfig,
    pub consecutive_failures: u32,
    pub last_failure: Option<u64>,
}

impl SessionState {
    /// The invariant of a session: a usable configuration and a sound
    /// screen.
    pub open spec fn wf(self) -> bool {
        self.config.wf() && self.screen.wf()
    }

    /// The session and the next step after `event` in a connection
    /// attempt. A connected session is ready at once. A spawn that
    /// succeeds connects the session and clears its count of failures. A
    /// spawn that fails is counted; the next spawn follows after the wait
    /// for that attempt, unless the attempts are used up, in which case the
    /// error of the last one is handed out. With no attempt allowed the
    /// connection fails at once on the environment.
    pub open spec fn connect(self, event: ConnectEvent) -> (SessionState, ConnectStep) {
        match event {
            ConnectEvent::Begin => if self.connected {
                (self, ConnectStep::Ready)
            } else if self.config.max_retries == 0 {
                (self, ConnectStep::Failed(PtyError::EnvironmentSetup))
            } else {
                (self, ConnectStep::Spawn)
            },
            ConnectEvent::Spawned => (
                SessionState { connected: true, consecutive_failures: 0, ..self },
                ConnectStep::Ready,
            ),
            ConnectEvent::SpawnFailed { attempt, error } => (
                SessionState {
                    consecutive_failures: at_most(
                        self.consecutive_failures + 1,
                        u32::MAX as int,
                    ) as u32,
                    ..self
                },
                if attempt + 1 < self.config.max_retries {
                    ConnectStep::SpawnAfter(self.config.delay_after(attempt as nat) as u64)
                } else {
                    ConnectStep::Failed(error)
                },
            ),
        }
    }

    /// The session and the next step after `event` in a write. A write
    /// that fails is classified: an error that fails is handed out; else
    /// the connection is dropped if it is to be recreated, and the next
    /// write follows after the wait for that attempt, unless the attempts
    /// are used up, in which case the write fails with a timeout.
    pub open spec fn write(self, event: WriteEvent) -> (SessionState, WriteStep) {
        match event {
            WriteEvent::Begin => if self.config.max_retries == 0 {
                (self, WriteStep::Failed(PtyError::Io(IoKind::TimedOut)))
            } else {
                (self, WriteStep::Write)
            },
            WriteEvent::Written => (self, WriteStep::Done),
            WriteEvent::Failed { attempt, error } => {
                let action = recovery_action(
                    error,
                    self.consecutive_failures,
                    self.config.failure_threshold,
                );
                if action == RecoveryAction::Fail {
                    (self, WriteStep::Failed(error))
                } else {
                    (
                        SessionState {
                            connected: self.connected && action != RecoveryAction::Recreate,
                            ..self
                        },
                        if attempt + 1 < self.config.max_retries {
                            WriteStep::WriteAfter(
                                self.config.delay_after((attempt + 1) as nat) as u64,
                            )
                        } else {
                            WriteStep::Failed(PtyError::Io(IoKind::TimedOut))
                        },
                    )
                }
            },
        }
    }

    /// The session and the next step after `event` in a read. Bytes that
    /// arrived are interpreted and handed out. A failure that calls for a
    /// new connection drops the connection and asks the caller to
    /// reconnect; any other failure is handed out, and the interpreter is
    /// not touched by either. Once the connection is made anew the read
    /// ends with no bytes; when it cannot be made, with the error of
    /// that.
    pub open spec fn read(self, event: ReadEvent) -> (SessionState, ReadStepView) {
        match event {
            ReadEvent::Read(data) => {
                let (machine, screen) = run(self.machine, self.screen, data@);
                (SessionState { machine, screen, ..self }, ReadStepView::Done(data@))
            },
            ReadEvent::Failed(error) => if recovery_action(
                error,
                self.consecutive_failures,
                self.config.failure_threshold,
            ) == RecoveryAction::Recreate {
                (self.disconnected(), ReadStepView::Reconnect)
            } else {
                (self, ReadStepView::Failed(error))
            },
            ReadEvent::Reconnected => if self.connected {
                (self, ReadStepView::Done(Seq::empty()))
            } else {
                (self, ReadStepView::Reconnect)
            },
            ReadEvent::ReconnectFailed(error) => (self, ReadStepView::Failed(error)),
        }
    }

    /// The session without a connection.
    pub open spec fn disconnected(self) -> SessionState {
        SessionState { connected: false, ..self }
    }
}

/// A connection attempt ends connected or with an error: whenever the
/// step is `Ready` the session is connected, and a step that is neither
/// `Ready` nor `Failed` asks for another spawn.
pub proof fn lemma_ready_means_connected(state: SessionState, event: ConnectEvent)
    ensures
        state.connect(event).1 is Ready ==> state.connect(event).0.connected,
        event is Spawned ==> state.connect(event).1 is Ready,
        state.connect(event).1 is Failed ==> state.connect(event).0.connected == state.connected,
{
}

/// A read ends connected or with an error. Bytes are handed out only by
/// a connected session: a read from a connected session that ends with
/// `Done` leaves it connected, and after a reconnection `Done` is given
/// only if the session is connected. A failure that calls for a new
/// connection hands out nothing: it asks for the reconnection. No failure
/// touches the interpreter.
pub proof fn lemma_read_ends_connected(state: SessionState, event: ReadEvent)
    ensures
        (event is Read ==> state.connected) ==> (state.read(event).1 is Done ==> state.read(
            event,
        ).0.connected),
        event matches ReadEvent::Failed(error) ==> !(state.read(event).1 is Done) && (state.read(
            event,
        ).1 is Reconnect <==> recovery_action(
            error,
            state.consecutive_failures,
            state.config.failure_threshold,
        ) == RecoveryAction::Recreate),
        event matches ReadEvent::ReconnectFailed(error) ==> state.read(event).1
            == ReadStepView::Failed(error),
        !(event is Read) ==> state.read(event).0.machine == state.machine && state.read(
            event,
        ).0.screen == state.screen,
{
}

/// A resize reaches the grid whether or not a terminal is connected, and
/// nothing that is reported afterwards takes it back: neither a failed
/// write nor a failed read nor any event of a connection attempt changes
/// the size of the grid.
pub proof fn lemma_resize_is_kept(
    state: SessionState,
    connect: ConnectEvent,
    write: WriteEvent,
    read: ReadEvent,
)
    requires
        !(read is Read),
    ensures
        state.connect(connect).0.screen == state.screen,
        state.write(write).0.screen == state.screen,
        state.read(read).0.screen == state.screen,
{
}

/// The policy side of a terminal session that recovers from failures. It
/// holds the interpreter, the retry configuration and the record of the
/// connection; the caller holds the terminal itself, spawns, reads and
/// writes, and reports each outcome here.
pub struct ResilientPtyHost {
    connected: bool,
    parser: TerminalParser,
    retry_config: RetryConfig,
    last_failure: Option<u64>,
    consecutive_failures: u32,
}

impl View for ResilientPtyHost {
    type V = SessionState;

    closed spec fn view(&self) -> SessionState {
        SessionState {
            connected: self.connected,
            machine: self.parser.machine(),
            screen: self.parser@,
            config: self.retry_config,
            consecutive_failures: self.consecutive_failures,
            last_failure: self.last_failure,
        }
    }
}

impl ResilientPtyHost {
    /// The invariant of a session: that of its state.
    pub open spec fn wf(&self) -> bool {
        self@.wf()
    }

    /// A session without a connection, with a blank grid of `rows` by
    /// `cols` cells and the default retry configuration.
    pub fn new(rows: u16, cols: u16) -> (host: Self)
        requires
            rows >= 1,
            cols >= 1,
        ensures
            host.wf(),
            host@ == (SessionState {
                connected: false,
                machine: host@.machine,
                screen: Screen::fresh(rows as int, cols as int),
                config: RetryConfig::standard(),
                consecutive_failures: 0,
                last_failure: None,
            }),
            at_ground(host@.machine),
    {
        ResilientPtyHost {
            connected: false,
            parser: TerminalParser::new(rows, cols),
            retry_config: RetryConfig::default(),
            last_failure: None,
            consecutive_failures: 0,
        }
    }

    /// The session with `config` as its retry configuration.
    pub fn with_retry_config(self, config: RetryConfig) -> (host: Self)
        ensures
            host@ == (SessionState { config, ..self@ }),
    {
        let mut host = self;
        host.retry_config = config;
        host
    }

    /// The action that answers `error` in the session's present state.
    pub fn determine_recovery_action(&self, error: &PtyError) -> (action: RecoveryAction)
        ensures
            action == recovery_action(
                *error,
                self@.consecutive_failures,
                self@.config.failure_threshold,
            ),
    {
        match error {
            PtyError::Io(kind) => match kind {
                IoKind::BrokenPipe | IoKind::ConnectionAborted | IoKind::UnexpectedEof =>
                    RecoveryAction::Recreate,
                IoKind::TimedOut | IoKind::Interrupted | IoKind::WouldBlock => RecoveryAction::Retry,
                IoKind::PermissionDenied | IoKind::NotFound => RecoveryAction::Fail,
                IoKind::Other => {
                    if self.consecutive_failures >= self.retry_config.failure_threshold {
                        RecoveryAction::Recreate
                    } else {
                        RecoveryAction::Retry
                    }
                },
            },
            PtyError::PtyCreation(_) => RecoveryAction::Retry,
            PtyError::Fork(_) => RecoveryAction::Fail,
            PtyError::ShellNotFound(_) => RecoveryAction::Fail,
            PtyError::EnvironmentSetup => RecoveryAction::Fail,
        }
    }

    /// The wait after attempt `attempt`, in milliseconds.
    pub fn calculate_delay(&self, attempt: u32) -> (delay: u64)
        requires
            self.wf(),
        ensures
            delay == self@.config.delay_after(attempt as nat),
    {
        self.retry_config.calculate_delay(attempt)
    }

    /// Takes in what happened in a connection attempt and says what the
    /// caller does next.
    pub fn ensure_connected(&mut self, event: ConnectEvent) -> (step: ConnectStep)
        requires
            old(self).wf(),
        ensures
            final(self).wf(),
            (final(self)@, step) == old(self)@.connect(event),
    {
        match event {
            ConnectEvent::Begin => {
                if self.connected {
                    ConnectStep::Ready
                } else if self.retry_config.max_retries == 0 {
                    ConnectStep::Failed(PtyError::EnvironmentSetup)
                } else {
                    ConnectStep::Spawn
                }
            },
            ConnectEvent::Spawned => {
                self.connected = true;
                self.consecutive_failures = 0;
                ConnectStep::Ready
            },
            ConnectEvent::SpawnFailed { attempt, error } => {
                if self.consecutive_failures < u32::MAX {
                    self.consecutive_failures += 1;
                }
                if attempt < u32::MAX && attempt + 1 < self.retry_config.max_retries {
                    ConnectStep::SpawnAfter(self.retry_config.calculate_delay(attempt))
                } else {
                    ConnectStep::Failed(error)
                }
            },
        }
    }

    /// Takes in what happened in a write and says what the caller does
    /// next.
    pub fn write_resilient(&mut self, event: WriteEvent) -> (step: WriteStep)
        requires
            old(self).wf(),
        ensures
            final(self).wf(),
            (final(self)@, step) == old(self)@.write(event),
    {
        match event {
            WriteEvent::Begin => {
                if self.retry_config.max_retries == 0 {
                    WriteStep::Failed(PtyError::Io(IoKind::TimedOut))
                } else {
                    WriteStep::Write
                }
            },
            WriteEvent::Written => WriteStep::Done,
            WriteEvent::Failed { attempt, error } => {
                match self.determine_recovery_action(&error) {
                    RecoveryAction::Fail => WriteStep::Failed(error),
                    action => {
                        if let RecoveryAction::Recreate = action {
                            self.connected = false;
                        }
                        if attempt < u32::MAX && attempt + 1 < self.retry_config.max_retries {
                            WriteStep::WriteAfter(self.retry_config.calculate_delay(attempt + 1))
                        } else {
                            WriteStep::Failed(PtyError::Io(IoKind::TimedOut))
                        }
                    },
                }
            },
        }
    }

    /// Takes in what happened in a read and says what the caller does
    /// next: bytes that arrived are interpreted before they are handed
    /// out.
    pub fn read_resilient(&mut self, event: ReadEvent) -> (step: ReadStep)
        requires
            old(self).wf(),
        ensures
            final(self).wf(),
            (final(self)@, step@) == old(self)@.read(event),
    {
        match event {
            ReadEvent::Read(bytes) => {
                if bytes.len() > 0 {
                    self.parser.parse(bytes.as_slice());
                }
                ReadStep::Done(bytes)
            },
            ReadEvent::Failed(error) => {
                match self.determine_recovery_action(&error) {
                    RecoveryAction::Recreate => {
                        self.connected = false;
                        ReadStep::Reconnect
                    },
                    _ => ReadStep::Failed(error),
                }
            },
            ReadEvent::Reconnected => {
                if self.connected {
                    ReadStep::Done(Vec::new())
                } else {
                    ReadStep::Reconnect
                }
            },
            ReadEvent::ReconnectFailed(error) => ReadStep::Failed(error),
        }
    }

    /// Resizes the grid at once, whether a terminal is connected or not.
    /// The resize of the terminal itself comes after and is the caller's;
    /// when it fails the caller reports the error and the session stays as
    /// it is.
    pub fn resize_resilient(&mut self, rows: u16, cols: u16)
        requires
            old(self).wf(),
            rows >= 1,
            cols >= 1,
        ensures
            final(self).wf(),
            final(self)@ == (SessionState {
                screen: Screen {
                    grid: old(self)@.screen.grid.resize(rows as int, cols as int),
                    ..old(self)@.screen
                },
                ..old(self)@
            }),
            final(self)@.screen.grid.rows == rows,
            final(self)@.screen.grid.cols == cols,
    {
        self.parser.resize(rows, cols);
    }

    /// The interpreter.
    pub fn parser(&self) -> (parser: &TerminalParser)
        ensures
            parser@ == self@.screen,
            parser.machine() == self@.machine,
    {
        &self.parser
    }

    /// The interpreter, to be changed in place.
    pub fn parser_mut(&mut self) -> (parser: &mut TerminalParser)
        ensures
            parser@ == old(self)@.screen,
            parser.machine() == old(self)@.machine,
            final(self)@ == (SessionState {
                screen: final(parser)@,
                machine: final(parser).machine(),
                ..old(self)@
            }),
    {
        &mut self.parser
    }

    /// Whether a terminal is connected.
    pub fn is_connected(&self) -> (connected: bool)
        ensures
            connected == self@.connected,
    {
        self.connected
    }

    /// A summary of the connection.
    pub fn connection_stats(&self) -> (stats: ConnectionStats)
        ensures
            stats == (ConnectionStats {
                is_connected: self@.connected,
                consecutive_failures: self@.consecutive_failures,
                last_failure: self@.last_failure,
            }),
    {
        ConnectionStats {
            is_connected: self.is_connected(),
            consecutive_failures: self.consecutive_failures,
            last_failure: self.last_failure,
        }
    }

    /// Drops the connection, if there is one.
    pub fn disconnect(&mut self)
        ensures
            final(self)@ == old(self)@.disconnected(),
    {
        if self.connected {
            self.connected = false;
        }
    }
}

} // verus!
