use telemetry_node::duty::ADDRESS_POLL_LIMIT;
use telemetry_node::duty::DutyAction;
use telemetry_node::duty::DutyCycle;
use telemetry_node::duty::DutyEvent;
use telemetry_node::duty::DutyPhase;
use telemetry_node::duty::GRACE_MILLIS;
use telemetry_node::duty::LINK_POLL_LIMIT;
use telemetry_node::duty::POLL_PAUSE_MILLIS;
use telemetry_node::duty::WAKE_SECONDS;
use telemetry_node::indicator::Indicator;
use telemetry_node::sensor::Reading;
use telemetry_node::sensor::SensorError;

#[test]
fn full_cycle_reaches_sleep_after_the_stop_signals() {
    let mut d = DutyCycle::new();
    assert_eq!(d.phase, DutyPhase::SensorRead);

    let a = d.step(DutyEvent::SensorDone(Ok(Reading { humidity: 60, temperature: 25 })));
    assert_eq!(a, DutyAction::PollLink { pause_millis: POLL_PAUSE_MILLIS });
    assert_eq!(d.reading, Reading { humidity: 60, temperature: 25 });

    let a = d.step(DutyEvent::LinkPolled(true));
    assert_eq!(a, DutyAction::PollAddress { pause_millis: POLL_PAUSE_MILLIS });
    assert!(d.link_up);

    let a = d.step(DutyEvent::AddressPolled(true));
    assert_eq!(a, DutyAction::SendTelemetry);
    assert!(d.have_address);
    assert!(!d.stop_signalled);

    let a = d.step(DutyEvent::TransmitDone(true));
    assert_eq!(a, DutyAction::SetStopSignals { grace_millis: GRACE_MILLIS });
    assert!(d.stop_signalled);

    let a = d.step(DutyEvent::GraceElapsed);
    assert_eq!(a, DutyAction::EnterDeepSleep { wake_seconds: WAKE_SECONDS });
    assert_eq!(d.phase, DutyPhase::Sleep);
    assert!(d.stop_signalled);
}

#[test]
fn sensor_failure_degrades_to_the_placeholder() {
    let mut d = DutyCycle::new();
    d.step(DutyEvent::SensorDone(Err(SensorError::Timeout)));
    assert_eq!(d.reading, Reading { humidity: 8, temperature: 8 });
    assert!(matches!(d.phase, DutyPhase::LinkWait { .. }));
}

#[test]
fn link_timeout_proceeds_without_attachment() {
    let mut d = DutyCycle::new();
    d.step(DutyEvent::SensorDone(Err(SensorError::ChecksumMismatch)));
    for _ in 0..LINK_POLL_LIMIT + 1 {
        assert!(matches!(d.phase, DutyPhase::LinkWait { .. }));
        d.step(DutyEvent::LinkPolled(false));
    }
    // The ceiling is reached: the cycle moves on, link still down.
    assert!(matches!(d.phase, DutyPhase::AddressWait { .. }));
    assert!(!d.link_up);
}

#[test]
fn address_timeout_proceeds_without_an_address() {
    let mut d = DutyCycle::new();
    d.step(DutyEvent::SensorDone(Ok(Reading { humidity: 50, temperature: 20 })));
    d.step(DutyEvent::LinkPolled(true));
    for _ in 0..ADDRESS_POLL_LIMIT + 1 {
        assert!(matches!(d.phase, DutyPhase::AddressWait { .. }));
        d.step(DutyEvent::AddressPolled(false));
    }
    assert_eq!(d.phase, DutyPhase::Transmit);
    assert!(!d.have_address);
}

#[test]
fn transmit_failure_still_sets_the_stop_signals() {
    let mut d = DutyCycle::new();
    d.step(DutyEvent::SensorDone(Ok(Reading { humidity: 50, temperature: 20 })));
    d.step(DutyEvent::LinkPolled(true));
    d.step(DutyEvent::AddressPolled(true));
    let a = d.step(DutyEvent::TransmitDone(false));
    assert_eq!(a, DutyAction::SetStopSignals { grace_millis: GRACE_MILLIS });
    assert!(d.stop_signalled);
    assert_eq!(d.phase, DutyPhase::GraceWait);
}

#[test]
fn indicator_toggles_until_stopped() {
    let mut ind = Indicator::new();
    assert!(ind.blink_high && ind.steady_high && !ind.stopped);
    assert!(!ind.poll(false));
    assert!(!ind.blink_high);
    assert!(ind.steady_high);
    assert!(!ind.poll(false));
    assert!(ind.blink_high);
}

#[test]
fn indicator_stop_drives_both_outputs_low_in_one_poll() {
    let mut ind = Indicator::new();
    ind.poll(false);
    let done = ind.poll(true);
    assert!(done);
    assert!(!ind.blink_high);
    assert!(!ind.steady_high);
    assert!(ind.stopped);
}
