use keylight_sync::light::DeviceError;
use keylight_sync::light::LightState;
use keylight_sync::settings::MyAppSettings;
use keylight_sync::supervisor::LaunchError;
use keylight_sync::supervisor::ManualToggleAction;
use keylight_sync::supervisor::Supervisor;
use keylight_sync::supervisor::commit_manual_toggle;
use keylight_sync::supervisor::manual_toggle_plan;
use keylight_sync::supervisor::manual_toggle_target;

fn valid_settings() -> MyAppSettings {
    MyAppSettings {
        ip_address: String::from("192.168.178.21"),
        port: 9123,
        check_interval: 500,
    }
}

#[test]
fn a_new_controller_starts_only_after_the_old_one_terminated() {
    let mut sup = Supervisor::new();
    assert_eq!(sup.live_controller(), None);

    let first = sup.launch(&valid_settings()).unwrap();
    assert_eq!(sup.live_controller(), Some(first));

    // A configuration change may not start a replacement while the
    // first controller is still live.
    assert_eq!(sup.launch(&valid_settings()), Err(LaunchError::StillLive));
    assert_eq!(sup.live_controller(), Some(first));

    assert!(sup.note_terminated(first));
    assert_eq!(sup.live_controller(), None);

    let second = sup.launch(&valid_settings()).unwrap();
    assert_ne!(first, second);
    assert_eq!(sup.live_controller(), Some(second));
}

#[test]
fn stale_termination_reports_change_nothing() {
    let mut sup = Supervisor::new();
    let id = sup.launch(&valid_settings()).unwrap();
    assert!(!sup.note_terminated(id + 1));
    assert_eq!(sup.live_controller(), Some(id));
}

#[test]
fn invalid_host_is_refused_at_startup() {
    let mut sup = Supervisor::new();
    let bad = MyAppSettings {
        ip_address: String::from("not-an-address"),
        port: 9123,
        check_interval: 500,
    };
    assert_eq!(sup.launch(&bad), Err(LaunchError::InvalidHost));
    assert_eq!(sup.live_controller(), None);
}

#[test]
fn manual_turn_on_stops_automation_and_turn_off_restarts_it() {
    let off = LightState { on: false, brightness: 20, temperature: 4500 };
    assert_eq!(manual_toggle_plan(&off), ManualToggleAction::StopAutomation);

    let on = LightState { on: true, brightness: 20, temperature: 4500 };
    assert_eq!(manual_toggle_plan(&on), ManualToggleAction::RestartAutomation);
}

#[test]
fn manual_toggle_flips_only_on_success() {
    let mut s = LightState { on: false, brightness: 70, temperature: 2900 };
    let t = manual_toggle_target(&s);
    assert!(t.on);
    assert_eq!(t.brightness, 70);
    assert_eq!(t.temperature, 2900);

    commit_manual_toggle(&mut s, Err(DeviceError::Unreachable));
    assert!(!s.on);

    commit_manual_toggle(&mut s, Ok(()));
    assert!(s.on);
    assert_eq!(s.brightness, 70);
}
