use keylight_sync::probe::ProbeError;
use keylight_sync::probe::ProbeReading;
use keylight_sync::probe::SessionRecord;
use keylight_sync::probe::camera_in_use;

#[test]
fn missing_path_means_camera_not_in_use() {
    assert_eq!(camera_in_use(&ProbeReading::PathMissing), Ok(false));
}

#[test]
fn read_failure_is_a_probe_error() {
    assert_eq!(camera_in_use(&ProbeReading::ReadFailure), Err(ProbeError::ReadFailed));
}

#[test]
fn no_sessions_means_camera_not_in_use() {
    assert_eq!(camera_in_use(&ProbeReading::Sessions(vec![])), Ok(false));
}

#[test]
fn closed_sessions_mean_camera_not_in_use() {
    let reading = ProbeReading::Sessions(vec![
        SessionRecord { last_used_stop: Some(133578862000000000) },
        SessionRecord { last_used_stop: None },
    ]);
    assert_eq!(camera_in_use(&reading), Ok(false));
}

#[test]
fn any_open_session_means_camera_in_use() {
    let reading = ProbeReading::Sessions(vec![
        SessionRecord { last_used_stop: Some(133578862000000000) },
        SessionRecord { last_used_stop: Some(0) },
        SessionRecord { last_used_stop: None },
    ]);
    assert_eq!(camera_in_use(&reading), Ok(true));
}
