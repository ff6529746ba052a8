use ledstrip_core::supervisor::ConnectionState;
use ledstrip_core::supervisor::Supervisor;
use ledstrip_core::supervisor::SupervisorAction;
use ledstrip_core::supervisor::SupervisorEvent;
use ledstrip_core::supervisor::BACKOFF_MS;

#[test]
fn backoff_is_five_seconds() {
    assert_eq!(BACKOFF_MS, 5000);
}

#[test]
fn startup_walks_the_connect_cycle() {
    let mut s = Supervisor::new();
    assert_eq!(s.state, ConnectionState::Disconnected);
    assert!(!s.radio_started);

    assert_eq!(s.next_action(0), SupervisorAction::StartRadio);
    assert_eq!(s.state, ConnectionState::StartingRadio);

    s.on_event(SupervisorEvent::RadioStarted, 10);
    assert_eq!(s.state, ConnectionState::Connecting);
    assert!(s.radio_started);

    assert_eq!(s.next_action(20), SupervisorAction::AttemptConnect);
    s.on_event(SupervisorEvent::ConnectSucceeded, 30);
    assert_eq!(s.state, ConnectionState::Connected);

    assert_eq!(s.next_action(40), SupervisorAction::AwaitDisconnect);
}

#[test]
fn disconnect_backoff_blocks_then_releases() {
    let mut s = Supervisor::new();
    s.next_action(0);
    s.on_event(SupervisorEvent::RadioStarted, 0);
    s.next_action(0);
    s.on_event(SupervisorEvent::ConnectSucceeded, 0);

    s.on_event(SupervisorEvent::DisconnectNotified, 1000);
    assert_eq!(s.state, ConnectionState::Connecting);
    assert_eq!(s.next_action(1001), SupervisorAction::Delay);
    assert_eq!(s.next_action(5999), SupervisorAction::Delay);
    assert_eq!(s.next_action(6000), SupervisorAction::AttemptConnect);
}

#[test]
fn connect_failure_backs_off_then_retries() {
    let mut s = Supervisor::new();
    s.next_action(0);
    s.on_event(SupervisorEvent::RadioStarted, 0);
    assert_eq!(s.next_action(0), SupervisorAction::AttemptConnect);

    s.on_event(SupervisorEvent::ConnectFailed, 100);
    assert_eq!(s.next_action(100), SupervisorAction::Delay);
    assert_eq!(s.next_action(5099), SupervisorAction::Delay);
    assert_eq!(s.next_action(5100), SupervisorAction::AttemptConnect);
}

#[test]
fn start_failure_backs_off_then_starts_again() {
    let mut s = Supervisor::new();
    assert_eq!(s.next_action(0), SupervisorAction::StartRadio);
    s.on_event(SupervisorEvent::RadioStartFailed, 0);
    assert_eq!(s.state, ConnectionState::Disconnected);
    assert!(!s.radio_started);
    assert_eq!(s.next_action(4999), SupervisorAction::Delay);
    assert_eq!(s.next_action(5000), SupervisorAction::StartRadio);
}

#[test]
fn retries_are_unbounded() {
    let mut s = Supervisor::new();
    let mut t: u64 = 0;
    for _ in 0..10 {
        assert_eq!(s.next_action(t), SupervisorAction::StartRadio);
        s.on_event(SupervisorEvent::RadioStartFailed, t);
        t += BACKOFF_MS;
    }
    assert_eq!(s.next_action(t), SupervisorAction::StartRadio);
}
