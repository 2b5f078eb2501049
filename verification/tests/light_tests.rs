use keylight_sync::light::DeviceError;
use keylight_sync::light::DeviceReply;
use keylight_sync::light::LightState;
use keylight_sync::light::RawLight;
use keylight_sync::light::classify_status;
use keylight_sync::light::decode_reply;
use keylight_sync::light::encode_request_body;
use keylight_sync::light::encode_state;
use keylight_sync::light::WireLight;

#[test]
fn encode_maps_on_flag_to_one_and_zero() {
    let on = LightState { on: true, brightness: 55, temperature: 4500 };
    let w = encode_state(&on);
    assert_eq!(w.on, 1);
    assert_eq!(w.brightness, 55);
    assert_eq!(w.temperature, 266);

    let off = LightState { on: false, brightness: 0, temperature: 7000 };
    let w = encode_state(&off);
    assert_eq!(w.on, 0);
    assert_eq!(w.brightness, 0);
    assert_eq!(w.temperature, 143);
}

#[test]
fn decode_malformed_reply_is_parse_error() {
    assert_eq!(decode_reply(&DeviceReply::Malformed), Err(DeviceError::ParseError));
}

#[test]
fn decode_empty_light_array_is_parse_error() {
    assert_eq!(decode_reply(&DeviceReply::Lights(vec![])), Err(DeviceError::ParseError));
}

#[test]
fn decode_reads_first_entry() {
    let reply = DeviceReply::Lights(vec![
        RawLight { on: Some(1), brightness: Some(40), temperature: Some(200) },
        RawLight { on: Some(0), brightness: Some(5), temperature: Some(344) },
    ]);
    let s = decode_reply(&reply).unwrap();
    assert!(s.on);
    assert_eq!(s.brightness, 40);
    assert_eq!(s.temperature, 5838);
}

#[test]
fn decode_missing_fields_are_a_parse_error() {
    let reply = DeviceReply::Lights(vec![RawLight { on: None, brightness: None, temperature: None }]);
    assert_eq!(decode_reply(&reply), Err(DeviceError::ParseError));

    let no_on = DeviceReply::Lights(vec![RawLight {
        on: None,
        brightness: Some(40),
        temperature: Some(200),
    }]);
    assert_eq!(decode_reply(&no_on), Err(DeviceError::ParseError));

    let no_brightness = DeviceReply::Lights(vec![RawLight {
        on: Some(1),
        brightness: None,
        temperature: Some(200),
    }]);
    assert_eq!(decode_reply(&no_brightness), Err(DeviceError::ParseError));

    let no_temperature = DeviceReply::Lights(vec![RawLight {
        on: Some(1),
        brightness: Some(40),
        temperature: None,
    }]);
    assert_eq!(decode_reply(&no_temperature), Err(DeviceError::ParseError));
}

#[test]
fn status_codes_classify_into_success_and_rejection() {
    assert_eq!(classify_status(200), Ok(()));
    assert_eq!(classify_status(204), Ok(()));
    assert_eq!(classify_status(299), Ok(()));
    assert_eq!(classify_status(199), Err(DeviceError::ServerRejected(199)));
    assert_eq!(classify_status(300), Err(DeviceError::ServerRejected(300)));
    assert_eq!(classify_status(404), Err(DeviceError::ServerRejected(404)));
    assert_eq!(classify_status(500), Err(DeviceError::ServerRejected(500)));
}

#[test]
fn decode_forces_brightness_into_range() {
    let reply = DeviceReply::Lights(vec![RawLight {
        on: Some(7),
        brightness: Some(255),
        temperature: Some(344),
    }]);
    let s = decode_reply(&reply).unwrap();
    assert!(s.on);
    assert_eq!(s.brightness, 100);
    assert_eq!(s.temperature, 2900);

    let reply = DeviceReply::Lights(vec![RawLight {
        on: Some(0),
        brightness: Some(300),
        temperature: Some(143),
    }]);
    let s = decode_reply(&reply).unwrap();
    assert!(!s.on);
    assert_eq!(s.brightness, 44);
    assert_eq!(s.temperature, 7000);
}

#[test]
fn request_body_is_framed_exactly() {
    let state = LightState { on: true, brightness: 55, temperature: 4500 };
    let body = encode_request_body(&encode_state(&state));
    assert_eq!(
        body,
        "{\"numberOfLights\":1,\"lights\":[{\"on\":1,\"brightness\":55,\"temperature\":266}]}"
    );

    let off = WireLight { on: 0, brightness: 0, temperature: 143 };
    assert_eq!(
        encode_request_body(&off),
        "{\"numberOfLights\":1,\"lights\":[{\"on\":0,\"brightness\":0,\"temperature\":143}]}"
    );

    let full = WireLight { on: 1, brightness: 100, temperature: 344 };
    assert_eq!(
        encode_request_body(&full),
        "{\"numberOfLights\":1,\"lights\":[{\"on\":1,\"brightness\":100,\"temperature\":344}]}"
    );
}

#[test]
fn clamped_builds_well_formed_states() {
    let s = LightState::clamped(true, 200, 100);
    assert!(s.on);
    assert_eq!(s.brightness, 100);
    assert_eq!(s.temperature, 2900);

    let s = LightState::clamped(false, 30, 9000);
    assert_eq!(s.brightness, 30);
    assert_eq!(s.temperature, 7000);
}
