use led_controller::lifecycle::{ConnectionStatus, FailureReason, WifiAction, WifiConnection,
    WifiEvent};

#[test]
fn starts_disconnected_and_associates_on_start() {
    let mut w = WifiConnection::new();
    assert_eq!(w.status, ConnectionStatus::Disconnected);
    let a = w.on_event(&WifiEvent::StartRequested);
    assert_eq!(w.status, ConnectionStatus::Connecting);
    assert_eq!(a, WifiAction::Associate);
}

#[test]
fn repeated_failures_never_stick_and_success_connects() {
    let mut w = WifiConnection::new();
    w.on_event(&WifiEvent::StartRequested);
    for round in 0..5 {
        let reason = if round % 2 == 0 {
            (WifiEvent::AssociationTimedOut, FailureReason::Timeout)
        } else {
            (WifiEvent::AssociationRejected, FailureReason::Rejected)
        };
        let a = w.on_event(&reason.0);
        assert_eq!(w.status, ConnectionStatus::Failed { reason: reason.1 });
        assert_eq!(a, WifiAction::BeginCooldown);
        let a = w.on_event(&WifiEvent::CooldownElapsed);
        assert_eq!(w.status, ConnectionStatus::Connecting);
        assert_eq!(a, WifiAction::Associate);
    }
    let a = w.on_event(&WifiEvent::AddressAcquired { addr: 0xC0A80117 });
    assert_eq!(w.status, ConnectionStatus::Connected { addr: 0xC0A80117 });
    assert_eq!(a, WifiAction::MonitorLink);
}

#[test]
fn lost_link_reconnects_after_a_delay() {
    let mut w = WifiConnection::new();
    w.on_event(&WifiEvent::StartRequested);
    w.on_event(&WifiEvent::AddressAcquired { addr: 1 });
    let a = w.on_event(&WifiEvent::ConnectionLost);
    assert_eq!(w.status, ConnectionStatus::Connecting);
    assert_eq!(a, WifiAction::DelayThenAssociate);
}

#[test]
fn unexpected_events_change_nothing() {
    let mut w = WifiConnection::new();
    let a = w.on_event(&WifiEvent::CooldownElapsed);
    assert_eq!(w.status, ConnectionStatus::Disconnected);
    assert_eq!(a, WifiAction::Ignore);

    w.on_event(&WifiEvent::StartRequested);
    w.on_event(&WifiEvent::AddressAcquired { addr: 7 });
    let a = w.on_event(&WifiEvent::AddressAcquired { addr: 9 });
    assert_eq!(w.status, ConnectionStatus::Connected { addr: 7 });
    assert_eq!(a, WifiAction::Ignore);
}
