use keylight_sync::controller::Controller;
use keylight_sync::controller::StatusEvent;
use keylight_sync::controller::TickDecision;
use keylight_sync::light::DeviceError;
use keylight_sync::light::LightState;
use keylight_sync::probe::ProbeError;

fn fallback() -> LightState {
    LightState { on: false, brightness: 20, temperature: 4500 }
}

fn started_controller() -> Controller {
    let mut c = Controller::new(None, fallback());
    let e = c.finish_startup(Ok(()));
    assert_eq!(e, StatusEvent::LightOffInitially);
    c
}

#[test]
fn startup_write_is_always_off_even_if_device_reported_on() {
    let fetched = LightState { on: true, brightness: 80, temperature: 3000 };
    let c = Controller::new(Some(fetched), fallback());
    let target = c.startup_target();
    assert!(!target.on);
    assert_eq!(target.brightness, 80);
    assert_eq!(target.temperature, 3000);
}

#[test]
fn startup_failure_never_reaches_the_loop() {
    let mut c = Controller::new(None, fallback());
    let e = c.finish_startup(Err(DeviceError::Unreachable));
    assert_eq!(e, StatusEvent::StartupFailed(DeviceError::Unreachable));
}

#[test]
fn presence_changes_cause_exactly_two_writes() {
    let mut c = started_controller();
    let presence = [false, false, true, true, false];
    let mut applied: Vec<bool> = Vec::new();
    for p in presence {
        match c.decide(false, Ok(p)) {
            TickDecision::Apply { target } => {
                applied.push(target.on);
                let e = c.commit_apply(target, Ok(()));
                assert_eq!(e, StatusEvent::PresenceChanged { enabled: p });
            }
            TickDecision::ReportUnchanged { enabled } => {
                assert_eq!(enabled, p);
            }
            other => panic!("unexpected decision {:?}", other),
        }
    }
    assert_eq!(applied, vec![true, false]);
}

#[test]
fn one_unreachable_tick_does_not_stop_the_loop() {
    let mut c = started_controller();
    let target = match c.decide(false, Ok(true)) {
        TickDecision::Apply { target } => target,
        other => panic!("unexpected decision {:?}", other),
    };
    let e = c.commit_apply(target, Err(DeviceError::Unreachable));
    assert_eq!(
        e,
        StatusEvent::ApplyFailed { turning_on: true, error: DeviceError::Unreachable }
    );

    let target = match c.decide(false, Ok(true)) {
        TickDecision::Apply { target } => target,
        other => panic!("unexpected decision {:?}", other),
    };
    assert!(target.on);
    let e = c.commit_apply(target, Ok(()));
    assert_eq!(e, StatusEvent::PresenceChanged { enabled: true });

    match c.decide(false, Ok(true)) {
        TickDecision::ReportUnchanged { enabled } => assert!(enabled),
        other => panic!("unexpected decision {:?}", other),
    }
}

#[test]
fn probe_failure_changes_nothing() {
    let mut c = started_controller();
    match c.decide(false, Err(ProbeError::ReadFailed)) {
        TickDecision::ProbeFailed(err) => {
            assert_eq!(c.probe_failure_event(err), StatusEvent::ProbeCheckFailed(err));
        }
        other => panic!("unexpected decision {:?}", other),
    }
    match c.decide(false, Ok(true)) {
        TickDecision::Apply { target } => assert!(target.on),
        other => panic!("unexpected decision {:?}", other),
    }
}

#[test]
fn stop_signal_wins_over_presence() {
    let mut c = started_controller();
    match c.decide(true, Ok(true)) {
        TickDecision::Stop => {
            let e = c.acknowledge_stop();
            assert_eq!(e, StatusEvent::Stopped);
        }
        other => panic!("unexpected decision {:?}", other),
    }
}

#[test]
fn event_messages_match_the_display_lines() {
    assert_eq!(StatusEvent::LightOffInitially.message(), "Light turned off initially");
    assert_eq!(StatusEvent::Stopped.message(), "Stopped");
    assert_eq!(
        StatusEvent::ProbeCheckFailed(ProbeError::ReadFailed).message(),
        "Failed to check camera access"
    );
    assert_eq!(
        StatusEvent::ApplyFailed { turning_on: true, error: DeviceError::Unreachable }.message(),
        "Failed to turn on the light"
    );
    assert_eq!(
        StatusEvent::ApplyFailed { turning_on: false, error: DeviceError::ParseError }.message(),
        "Failed to turn off the light"
    );
    assert_eq!(
        StatusEvent::PresenceChanged { enabled: true }.message(),
        "Camera access is enabled"
    );
    assert_eq!(
        StatusEvent::PresenceUnchanged { enabled: false }.message(),
        "Camera access is disabled"
    );
    assert_eq!(
        StatusEvent::StartupFailed(DeviceError::ServerRejected(500)).message(),
        "Failed to change light state"
    );
}
