use termind::pty::signals::{ChildSignal, SignalEvent};

#[test]
fn interrupt_and_terminate_are_forwarded() {
    assert_eq!(SignalEvent::Interrupt.forwarded(), Some(ChildSignal::Interrupt));
    assert_eq!(SignalEvent::Terminate.forwarded(), Some(ChildSignal::Terminate));
}

#[test]
fn window_change_is_not_forwarded() {
    assert_eq!(SignalEvent::WindowChange.forwarded(), None);
}

#[test]
fn every_child_signal_is_distinct() {
    let signals = [
        ChildSignal::Interrupt,
        ChildSignal::Terminate,
        ChildSignal::Kill,
        ChildSignal::WindowChange,
    ];
    for (i, a) in signals.iter().enumerate() {
        for (j, b) in signals.iter().enumerate() {
            assert_eq!(a == b, i == j);
        }
    }
}
