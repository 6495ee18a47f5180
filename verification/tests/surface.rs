//! Behavior of the property handlers, the wire formatting, the light
//! state, the sensor conversion and the identity formatting.

use wot_thing_core::fmt::{format_centi, format_json_bool, format_json_rgb, format_json_u8, format_u64};
use wot_thing_core::cell::StateCell;
use wot_thing_core::handlers::{
    read_brightness, read_color, read_flag_property, read_measurement, read_on,
    read_sensor_property, validate_brightness, validate_color, validation_response,
    write_response, STATUS_BAD_REQUEST, STATUS_NO_CONTENT, STATUS_OK, STATUS_SERVER_ERROR,
};
use wot_thing_core::ident::{base_uri, get_urn_or_uuid, hostname};
use wot_thing_core::light::{Light, Rgb};
use wot_thing_core::sensor::{humidity_centi, temperature_centi};
use wot_thing_core::DeviceError;

#[test]
fn decimal_formatting() {
    assert_eq!(format_u64(0), "0");
    assert_eq!(format_u64(7), "7");
    assert_eq!(format_u64(1234), "1234");
    assert_eq!(format_u64(u64::MAX), "18446744073709551615");
}

#[test]
fn centi_formatting() {
    assert_eq!(format_centi(2005), "20.05");
    assert_eq!(format_centi(2050), "20.5");
    assert_eq!(format_centi(2000), "20");
    assert_eq!(format_centi(5), "0.05");
    assert_eq!(format_centi(-50), "-0.5");
    assert_eq!(format_centi(-4500), "-45");
    assert_eq!(format_centi(0), "0");
}

#[test]
fn json_formatting() {
    assert_eq!(format_json_bool(true), "true");
    assert_eq!(format_json_bool(false), "false");
    assert_eq!(format_json_u8(255), "255");
    assert_eq!(format_json_rgb(1, 22, 255), "{\"r\":1,\"g\":22,\"b\":255}");
}

#[test]
fn light_state_updates() {
    let mut light = Light::new();
    assert!(!light.on);
    assert_eq!(light.brightness, 100);

    light.power(true);
    assert!(light.on);
    light.brightness(200);
    assert_eq!(light.brightness, 200);
    light.rgb(Rgb { r: 1, g: 2, b: 3 });
    assert_eq!(light.color, Rgb { r: 1, g: 2, b: 3 });
}

#[test]
fn off_light_drives_black() {
    let mut light = Light::new();
    light.rgb(Rgb { r: 200, g: 100, b: 50 });
    light.brightness(255);
    let out = light.power(false);
    assert_eq!(out, Rgb { r: 0, g: 0, b: 0 });
}

#[test]
fn led_output_matches_gamma_and_scaling() {
    let mut light = Light::new();
    light.power(true);
    light.brightness(255);
    let out = light.rgb(Rgb { r: 128, g: 0, b: 255 });

    // At full brightness the scaling is the identity, so the output is the
    // gamma table's remapping of each channel.
    let expected = smart_leds::gamma(core::iter::once(smart_leds::RGB8 { r: 128, g: 0, b: 255 }))
        .next()
        .unwrap();
    assert_eq!(out, Rgb { r: expected.r, g: expected.g, b: expected.b });
    // Gamma correction is not the identity in the middle of the range.
    assert_ne!(out.r, 128);
    assert_eq!(out.b, 255);

    // Halving the brightness halves each corrected channel.
    let halved = light.brightness(127);
    assert_eq!(halved.r, expected.r / 2);
    assert_eq!(halved.g, expected.g / 2);
    assert_eq!(halved.b, expected.b / 2);
}

#[test]
fn property_reads() {
    let mut light = Light::new();
    let resp = read_on(&light);
    assert_eq!(resp.status, STATUS_OK);
    assert_eq!(resp.body, "false");

    light.power(true);
    let resp = read_on(&light);
    assert_eq!(resp.body, "true");

    let resp = read_brightness(&light);
    assert_eq!(resp.status, STATUS_OK);
    assert_eq!(resp.body, "100");

    let resp = read_color(&light);
    assert_eq!(resp.status, STATUS_OK);
    assert_eq!(resp.body, "{\"r\":255,\"g\":255,\"b\":255}");
}

#[test]
fn write_then_read_round_trips() {
    let mut light = Light::new();
    // PUT /properties/on with true, then GET /properties/on.
    light.power(true);
    let resp = write_response(Ok(()));
    assert_eq!(resp.status, STATUS_NO_CONTENT);
    assert_eq!(resp.body, "");
    let resp = read_on(&light);
    assert_eq!(resp.status, STATUS_OK);
    assert_eq!(resp.body, "true");
}

#[test]
fn measurement_reads_and_faults() {
    let resp = read_measurement(&Ok(2373), "Failed to read temperature value.");
    assert_eq!(resp.status, STATUS_OK);
    assert_eq!(resp.body, "23.73");

    let resp = read_measurement(&Err(DeviceError), "Failed to read temperature value.");
    assert_eq!(resp.status, STATUS_SERVER_ERROR);
    assert_eq!(resp.body, "Failed to read temperature value.");
}

#[test]
fn reads_observe_the_latest_completed_write() {
    let mut cell: StateCell<Result<i32, DeviceError>> = StateCell::new(Err(DeviceError));
    let resp = read_sensor_property(&cell, "Failed to read humidity value.");
    assert_eq!(resp.status, STATUS_SERVER_ERROR);
    assert_eq!(resp.body, "Failed to read humidity value.");

    cell.write(Ok(6297));
    cell.write(Ok(6300));
    let resp = read_sensor_property(&cell, "Failed to read humidity value.");
    assert_eq!(resp.status, STATUS_OK);
    assert_eq!(resp.body, "63");

    let mut flag: StateCell<bool> = StateCell::new(false);
    flag.write(true);
    let resp = read_flag_property(&flag);
    assert_eq!(resp.status, STATUS_OK);
    assert_eq!(resp.body, "true");
}

#[test]
fn schema_validation() {
    assert_eq!(validate_brightness(0), Ok(0));
    assert_eq!(validate_brightness(255), Ok(255));
    assert!(validate_brightness(256).is_err());
    assert!(validate_brightness(-1).is_err());

    assert_eq!(validate_color(1, 2, 3), Ok(Rgb { r: 1, g: 2, b: 3 }));
    assert!(validate_color(1, 2, 300).is_err());
    assert!(validate_color(-1, 2, 3).is_err());

    let resp = validation_response(validate_brightness(256).unwrap_err());
    assert_eq!(resp.status, STATUS_BAD_REQUEST);

    let resp = write_response(Err(DeviceError));
    assert_eq!(resp.status, STATUS_SERVER_ERROR);
}

#[test]
fn sensor_word_conversion() {
    // The driver datasheet's own conversion examples.
    assert_eq!(temperature_centi(0x648B), 2373);
    assert_eq!(humidity_centi(0xA133), 6297);
    assert_eq!(temperature_centi(0), -4500);
    assert_eq!(humidity_centi(0), 0);
}

#[test]
fn vendor_urn_from_device_id() {
    let seed = [0u8; 16];
    let urn = get_urn_or_uuid(false, &seed, "aa:bb:cc:dd:ee:ff");
    assert_eq!(urn, "urn:example/shtc3/aa:bb:cc:dd:ee:ff");
}

#[test]
fn uuid_urn_from_seed() {
    let seed: [u8; 16] = [1, 2, 3, 4, 5, 6, 7, 8, 9, 10, 11, 12, 13, 14, 15, 16];
    let urn = get_urn_or_uuid(true, &seed, "");
    assert_eq!(urn.len(), 45);
    assert!(urn.starts_with("urn:uuid:"));
    // The same seed always yields the same identifier, and it matches the
    // identifier library's own rendering.
    let expected = uuid::Builder::from_random_bytes(seed).into_uuid().urn().to_string();
    assert_eq!(urn, expected);
}

#[test]
fn served_base_uri() {
    assert_eq!(base_uri("192.168.1.9"), "http://192.168.1.9");
}

#[test]
fn announced_hostname() {
    let hw: Vec<u8> = vec![1, 2, 3, 4, 5, 6, 7, 8];
    assert_eq!(hostname("shtc3", &hw), "shtc3-8765");
}
