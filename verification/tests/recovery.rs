use termind::pty::host::{IoKind, PtyError};
use termind::pty::recovery::{
    ConnectEvent, ConnectStep, ReadEvent, ReadStep, RecoveryAction, ResilientPtyHost,
    RetryConfig, WriteEvent, WriteStep,
};

fn config(max_retries: u32, failure_threshold: u32) -> RetryConfig {
    RetryConfig { max_retries, failure_threshold, ..RetryConfig::default() }
}

#[test]
fn default_retry_config() {
    let config = RetryConfig::default();
    assert_eq!(config.max_retries, 5);
    assert_eq!(config.base_delay_ms, 100);
    assert_eq!(config.max_delay_ms, 30000);
    assert_eq!((config.backoff_numerator, config.backoff_denominator), (2, 1));
    assert_eq!(config.failure_threshold, 3);
}

#[test]
fn backoff_doubles_up_to_the_cap() {
    let config = RetryConfig::default();
    assert_eq!(config.calculate_delay(0), 100);
    assert_eq!(config.calculate_delay(1), 200);
    assert_eq!(config.calculate_delay(2), 400);
    assert_eq!(config.calculate_delay(3), 800);
    assert_eq!(config.calculate_delay(8), 25600);
    assert_eq!(config.calculate_delay(9), 30000);
    assert_eq!(config.calculate_delay(u32::MAX), 30000);
}

#[test]
fn backoff_with_a_fraction_rounds_down_once() {
    let config = RetryConfig { backoff_numerator: 3, backoff_denominator: 2, ..RetryConfig::default() };
    assert_eq!(config.calculate_delay(0), 100);
    assert_eq!(config.calculate_delay(1), 150);
    assert_eq!(config.calculate_delay(2), 225);
    assert_eq!(config.calculate_delay(3), 337);
    // 100 * 1.5^4 = 506.25
    assert_eq!(config.calculate_delay(4), 506);
    assert_eq!(config.calculate_delay(5), 759);
    assert_eq!(config.calculate_delay(14), 29192);
    assert_eq!(config.calculate_delay(15), 30000);
    assert_eq!(config.calculate_delay(4000), 30000);
}

#[test]
fn backoff_in_thousandths_is_the_same_as_in_halves() {
    let config = RetryConfig {
        backoff_numerator: 1500,
        backoff_denominator: 1000,
        ..RetryConfig::default()
    };
    assert_eq!(config.calculate_delay(3), 337);
    assert_eq!(config.calculate_delay(4), 506);
    assert_eq!(config.calculate_delay(12), 12974);
    assert_eq!(config.calculate_delay(40), 30000);
}

#[test]
fn backoff_from_one_millisecond_grows() {
    let config = RetryConfig {
        base_delay_ms: 1,
        backoff_numerator: 3,
        backoff_denominator: 2,
        ..RetryConfig::default()
    };
    assert_eq!(config.calculate_delay(1), 1);
    assert_eq!(config.calculate_delay(2), 2);
    assert_eq!(config.calculate_delay(3), 3);
    assert_eq!(config.calculate_delay(4), 5);
    assert_eq!(config.calculate_delay(10), 57);
}

#[test]
fn backoff_with_a_factor_below_one_shrinks_to_nothing() {
    let config = RetryConfig { backoff_numerator: 1, backoff_denominator: 2, ..RetryConfig::default() };
    assert_eq!(config.calculate_delay(1), 50);
    assert_eq!(config.calculate_delay(2), 25);
    assert_eq!(config.calculate_delay(3), 12);
    assert_eq!(config.calculate_delay(6), 1);
    assert_eq!(config.calculate_delay(7), 0);
    assert_eq!(config.calculate_delay(u32::MAX), 0);
}

#[test]
fn backoff_is_capped() {
    let config = RetryConfig {
        backoff_numerator: 3,
        backoff_denominator: 2,
        max_delay_ms: 500,
        ..RetryConfig::default()
    };
    assert_eq!(config.calculate_delay(3), 337);
    assert_eq!(config.calculate_delay(4), 500);
}

#[test]
fn backoff_edge_cases() {
    let capped = RetryConfig { base_delay_ms: 50, max_delay_ms: 20, ..RetryConfig::default() };
    assert_eq!(capped.calculate_delay(0), 20);
    assert_eq!(capped.calculate_delay(7), 20);
    let flat = RetryConfig { backoff_numerator: 1, ..RetryConfig::default() };
    assert_eq!(flat.calculate_delay(1000000), 100);
    let zero = RetryConfig { backoff_numerator: 0, ..RetryConfig::default() };
    assert_eq!(zero.calculate_delay(0), 100);
    assert_eq!(zero.calculate_delay(1), 0);
    assert_eq!(zero.calculate_delay(5), 0);
    let huge = RetryConfig {
        base_delay_ms: u64::MAX,
        max_delay_ms: u64::MAX,
        backoff_numerator: u32::MAX,
        ..RetryConfig::default()
    };
    assert_eq!(huge.calculate_delay(3), u64::MAX);
}

#[test]
fn io_failures_are_classified_by_kind() {
    let host = ResilientPtyHost::new(24, 80);
    let table = [
        (IoKind::BrokenPipe, RecoveryAction::Recreate),
        (IoKind::ConnectionAborted, RecoveryAction::Recreate),
        (IoKind::UnexpectedEof, RecoveryAction::Recreate),
        (IoKind::TimedOut, RecoveryAction::Retry),
        (IoKind::Interrupted, RecoveryAction::Retry),
        (IoKind::WouldBlock, RecoveryAction::Retry),
        (IoKind::PermissionDenied, RecoveryAction::Fail),
        (IoKind::NotFound, RecoveryAction::Fail),
        (IoKind::Other, RecoveryAction::Retry),
    ];
    for (kind, action) in table {
        assert_eq!(host.determine_recovery_action(&PtyError::Io(kind)), action);
    }
}

#[test]
fn other_errors_are_classified() {
    let host = ResilientPtyHost::new(24, 80);
    assert_eq!(host.determine_recovery_action(&PtyError::PtyCreation(12)), RecoveryAction::Retry);
    assert_eq!(
        host.determine_recovery_action(&PtyError::ShellNotFound("none".to_string())),
        RecoveryAction::Fail
    );
    assert_eq!(
        host.determine_recovery_action(&PtyError::Fork("no".to_string())),
        RecoveryAction::Fail
    );
    assert_eq!(host.determine_recovery_action(&PtyError::EnvironmentSetup), RecoveryAction::Fail);
}

#[test]
fn unknown_io_failure_recreates_at_the_threshold() {
    let mut host = ResilientPtyHost::new(24, 80).with_retry_config(config(10, 2));
    let other = PtyError::Io(IoKind::Other);
    assert_eq!(host.determine_recovery_action(&other), RecoveryAction::Retry);
    host.ensure_connected(ConnectEvent::SpawnFailed { attempt: 0, error: PtyError::PtyCreation(1) });
    assert_eq!(host.determine_recovery_action(&other), RecoveryAction::Retry);
    host.ensure_connected(ConnectEvent::SpawnFailed { attempt: 1, error: PtyError::PtyCreation(1) });
    assert_eq!(host.connection_stats().consecutive_failures, 2);
    assert_eq!(host.determine_recovery_action(&other), RecoveryAction::Recreate);
}

#[test]
fn connecting_spawns_and_backs_off() {
    let mut host = ResilientPtyHost::new(24, 80).with_retry_config(config(3, 3));
    assert!(!host.is_connected());
    assert!(matches!(host.ensure_connected(ConnectEvent::Begin), ConnectStep::Spawn));
    let step = host
        .ensure_connected(ConnectEvent::SpawnFailed { attempt: 0, error: PtyError::PtyCreation(5) });
    assert!(matches!(step, ConnectStep::SpawnAfter(100)));
    let step = host
        .ensure_connected(ConnectEvent::SpawnFailed { attempt: 1, error: PtyError::PtyCreation(6) });
    assert!(matches!(step, ConnectStep::SpawnAfter(200)));
    let step = host
        .ensure_connected(ConnectEvent::SpawnFailed { attempt: 2, error: PtyError::PtyCreation(7) });
    assert!(matches!(step, ConnectStep::Failed(PtyError::PtyCreation(7))));
    let stats = host.connection_stats();
    assert!(!stats.is_connected);
    assert_eq!(stats.consecutive_failures, 3);
    assert_eq!(stats.last_failure, None);
    assert!(matches!(host.ensure_connected(ConnectEvent::Spawned), ConnectStep::Ready));
    assert!(host.is_connected());
    assert_eq!(host.connection_stats().consecutive_failures, 0);
    assert!(matches!(host.ensure_connected(ConnectEvent::Begin), ConnectStep::Ready));
}

#[test]
fn connecting_without_attempts_fails_on_the_environment() {
    let mut host = ResilientPtyHost::new(24, 80).with_retry_config(config(0, 3));
    assert!(matches!(
        host.ensure_connected(ConnectEvent::Begin),
        ConnectStep::Failed(PtyError::EnvironmentSetup)
    ));
    assert!(matches!(
        host.write_resilient(WriteEvent::Begin),
        WriteStep::Failed(PtyError::Io(IoKind::TimedOut))
    ));
}

#[test]
fn disconnect_then_reconnect() {
    let mut host = ResilientPtyHost::new(24, 80);
    host.ensure_connected(ConnectEvent::Spawned);
    assert!(host.is_connected());
    host.disconnect();
    assert!(!host.is_connected());
    host.disconnect();
    assert!(!host.is_connected());
    assert!(matches!(host.write_resilient(WriteEvent::Begin), WriteStep::Write));
    assert!(matches!(host.ensure_connected(ConnectEvent::Begin), ConnectStep::Spawn));
    host.ensure_connected(ConnectEvent::Spawned);
    assert!(matches!(host.write_resilient(WriteEvent::Written), WriteStep::Done));
    assert!(host.is_connected());
}

#[test]
fn failed_writes_retry_recreate_or_fail() {
    let mut host = ResilientPtyHost::new(24, 80).with_retry_config(config(3, 3));
    host.ensure_connected(ConnectEvent::Spawned);
    let step = host
        .write_resilient(WriteEvent::Failed { attempt: 0, error: PtyError::Io(IoKind::WouldBlock) });
    assert!(matches!(step, WriteStep::WriteAfter(200)));
    assert!(host.is_connected());
    let step = host
        .write_resilient(WriteEvent::Failed { attempt: 1, error: PtyError::Io(IoKind::BrokenPipe) });
    assert!(matches!(step, WriteStep::WriteAfter(400)));
    assert!(!host.is_connected());
    host.ensure_connected(ConnectEvent::Spawned);
    let step = host
        .write_resilient(WriteEvent::Failed { attempt: 2, error: PtyError::Io(IoKind::Interrupted) });
    assert!(matches!(step, WriteStep::Failed(PtyError::Io(IoKind::TimedOut))));
    assert!(host.is_connected());
    let step = host.write_resilient(WriteEvent::Failed {
        attempt: 0,
        error: PtyError::Io(IoKind::PermissionDenied),
    });
    assert!(matches!(step, WriteStep::Failed(PtyError::Io(IoKind::PermissionDenied))));
    assert!(host.is_connected());
}

#[test]
fn reads_are_interpreted() {
    let mut host = ResilientPtyHost::new(24, 80);
    host.ensure_connected(ConnectEvent::Spawned);
    let step = host.read_resilient(ReadEvent::Read(b"hi\r\n$ ".to_vec()));
    assert_eq!(step, ReadStep::Done(b"hi\r\n$ ".to_vec()));
    let grid = host.parser().grid();
    assert_eq!(grid.cell_at(0, 0).unwrap().ch, 'h');
    assert_eq!(grid.cell_at(0, 1).unwrap().ch, 'i');
    assert_eq!(grid.cell_at(1, 0).unwrap().ch, '$');
    let step = host.read_resilient(ReadEvent::Read(Vec::new()));
    assert_eq!(step, ReadStep::Done(Vec::new()));
    assert!(host.is_connected());
}

#[test]
fn read_that_lost_the_connection_reconnects_before_it_ends() {
    let mut host = ResilientPtyHost::new(24, 80);
    host.ensure_connected(ConnectEvent::Spawned);
    host.parser_mut().parse(b"kept");
    let step = host.read_resilient(ReadEvent::Failed(PtyError::Io(IoKind::BrokenPipe)));
    assert_eq!(step, ReadStep::Reconnect);
    assert!(!host.is_connected());
    // reporting a reconnection that did not happen asks for it again
    assert_eq!(host.read_resilient(ReadEvent::Reconnected), ReadStep::Reconnect);
    assert_eq!(host.ensure_connected(ConnectEvent::Begin), ConnectStep::Spawn);
    assert_eq!(host.ensure_connected(ConnectEvent::Spawned), ConnectStep::Ready);
    let step = host.read_resilient(ReadEvent::Reconnected);
    assert_eq!(step, ReadStep::Done(Vec::new()));
    assert!(host.is_connected());
    assert_eq!(host.parser().grid().cell_at(0, 3).unwrap().ch, 't');
    assert_eq!(host.parser().grid().cursor_position(), (0, 4));
}

#[test]
fn read_whose_reconnection_fails_hands_out_that_error() {
    let mut host = ResilientPtyHost::new(24, 80);
    host.ensure_connected(ConnectEvent::Spawned);
    let step = host.read_resilient(ReadEvent::Failed(PtyError::Io(IoKind::UnexpectedEof)));
    assert_eq!(step, ReadStep::Reconnect);
    let step = host.read_resilient(ReadEvent::ReconnectFailed(PtyError::PtyCreation(24)));
    assert_eq!(step, ReadStep::Failed(PtyError::PtyCreation(24)));
    assert!(!host.is_connected());
}

#[test]
fn failed_reads_that_keep_the_connection_are_handed_out() {
    let mut host = ResilientPtyHost::new(24, 80);
    host.ensure_connected(ConnectEvent::Spawned);
    let step = host.read_resilient(ReadEvent::Failed(PtyError::Io(IoKind::TimedOut)));
    assert_eq!(step, ReadStep::Failed(PtyError::Io(IoKind::TimedOut)));
    assert!(host.is_connected());
    let step = host.read_resilient(ReadEvent::Failed(PtyError::Io(IoKind::NotFound)));
    assert_eq!(step, ReadStep::Failed(PtyError::Io(IoKind::NotFound)));
    assert!(host.is_connected());
}

#[test]
fn resize_reaches_the_grid_without_a_connection() {
    let mut host = ResilientPtyHost::new(24, 80);
    host.parser_mut().parse(b"X");
    host.resize_resilient(30, 100);
    assert!(!host.is_connected());
    assert_eq!(host.parser().grid().rows, 30);
    assert_eq!(host.parser().grid().cols, 100);
    assert_eq!(host.parser().grid().cell_at(0, 0).unwrap().ch, 'X');
    host.ensure_connected(ConnectEvent::Spawned);
    host.resize_resilient(10, 20);
    assert!(host.is_connected());
    assert_eq!(host.parser().grid().rows, 10);
    assert_eq!(host.parser().grid().cols, 20);
}

#[test]
fn calculate_delay_of_the_session_uses_its_config() {
    let host = ResilientPtyHost::new(24, 80).with_retry_config(RetryConfig {
        base_delay_ms: 7,
        backoff_numerator: 3,
        ..RetryConfig::default()
    });
    assert_eq!(host.calculate_delay(0), 7);
    assert_eq!(host.calculate_delay(2), 63);
}

#[test]
fn test_resilient_pty_creation() {
    let mut resilient_pty = ResilientPtyHost::new(24, 80);
    assert!(!resilient_pty.is_connected());

    // the caller is told to spawn, and reports that it did
    assert_eq!(resilient_pty.ensure_connected(ConnectEvent::Begin), ConnectStep::Spawn);
    let result = resilient_pty.ensure_connected(ConnectEvent::Spawned);
    assert_eq!(result, ConnectStep::Ready);
    assert!(resilient_pty.is_connected());
}

#[test]
fn test_recovery_after_disconnect() {
    let mut resilient_pty = ResilientPtyHost::new(24, 80);

    resilient_pty.ensure_connected(ConnectEvent::Spawned);
    assert!(resilient_pty.is_connected());

    resilient_pty.disconnect();
    assert!(!resilient_pty.is_connected());

    // the next write asks for a connection first, then goes through
    assert_eq!(resilient_pty.write_resilient(WriteEvent::Begin), WriteStep::Write);
    assert_eq!(resilient_pty.ensure_connected(ConnectEvent::Begin), ConnectStep::Spawn);
    assert_eq!(resilient_pty.ensure_connected(ConnectEvent::Spawned), ConnectStep::Ready);
    let result = resilient_pty.write_resilient(WriteEvent::Written);
    assert_eq!(result, WriteStep::Done);
    assert!(resilient_pty.is_connected());
}

#[test]
fn waits_after_failed_spawns_follow_the_formula() {
    let fraction = RetryConfig {
        max_retries: 6,
        backoff_numerator: 3,
        backoff_denominator: 2,
        ..RetryConfig::default()
    };
    let mut host = ResilientPtyHost::new(24, 80).with_retry_config(fraction);
    let waits: Vec<ConnectStep> = (0..6)
        .map(|attempt| {
            host.ensure_connected(ConnectEvent::SpawnFailed {
                attempt,
                error: PtyError::PtyCreation(attempt as i32),
            })
        })
        .collect();
    assert_eq!(
        waits,
        vec![
            ConnectStep::SpawnAfter(100),
            ConnectStep::SpawnAfter(150),
            ConnectStep::SpawnAfter(225),
            ConnectStep::SpawnAfter(337),
            ConnectStep::SpawnAfter(506),
            ConnectStep::Failed(PtyError::PtyCreation(5)),
        ]
    );
    assert!(!host.is_connected());
    assert_eq!(host.connection_stats().consecutive_failures, 6);
}
