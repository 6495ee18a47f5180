//! Property read and write handlers.
//!
//! Each HTTP request for a property is dispatched, already parsed, to one
//! of these handlers. A read copies the value out of the shared state and
//! encodes it; a write validates the inbound value against the property's
//! schema, updates the state, and reports the device's verdict. Every
//! internal fault maps to a server-error response — a handler never hangs
//! and never brings the process down. The handlers are independent and may
//! interleave with the update task; they serialize only at the shared
//! state they borrow.

use vstd::prelude::*;

use crate::cell::StateCell;
use crate::fmt::centi_str;
use crate::fmt::dec_digits;
use crate::fmt::format_centi;
use crate::fmt::format_json_bool;
use crate::fmt::format_json_rgb;
use crate::fmt::format_json_u8;
use crate::fmt::json_bool;
use crate::fmt::json_rgb;
use crate::light::Light;
use crate::light::Rgb;
use crate::DeviceError;

verus! {

/// HTTP status: success with a body.
pub const STATUS_OK: u16 = 200;

/// HTTP status: success without a body.
pub const STATUS_NO_CONTENT: u16 = 204;

/// HTTP status: the inbound value failed schema validation.
pub const STATUS_BAD_REQUEST: u16 = 400;

/// HTTP status: a transient device fault spoiled this request.
pub const STATUS_SERVER_ERROR: u16 = 500;

/// What a handler answers: a status code and a body for the transport to
/// deliver.
pub struct HttpResponse {
    pub status: u16,
    pub body: String,
}

/// An inbound value that does not fit the property's declared schema. It is
/// rejected at the boundary and never touches device state.
#[derive(Clone, Copy, PartialEq, Eq, Structural, Debug)]
pub struct ValidationError;

/// Read the `on` property of a light.
pub fn read_on(light: &Light) -> (resp: HttpResponse)
    ensures
        resp.status == STATUS_OK,
        resp.body@ == json_bool(light.on),
{
    HttpResponse { status: STATUS_OK, body: format_json_bool(light.on) }
}

/// Read the `brightness` property of a light.
pub fn read_brightness(light: &Light) -> (resp: HttpResponse)
    ensures
        resp.status == STATUS_OK,
        resp.body@ == dec_digits(light.brightness as nat),
{
    HttpResponse { status: STATUS_OK, body: format_json_u8(light.brightness) }
}

/// Read the `color` property of a light.
pub fn read_color(light: &Light) -> (resp: HttpResponse)
    ensures
        resp.status == STATUS_OK,
        resp.body@ == json_rgb(light.color.r, light.color.g, light.color.b),
{
    HttpResponse {
        status: STATUS_OK,
        body: format_json_rgb(light.color.r, light.color.g, light.color.b),
    }
}

/// Read a sensor property from the last poll's outcome: the reading in
/// centi-units on success, or a server error carrying `fault_body` when the
/// last device read failed. The fault spoils only this response; the next
/// successful poll clears it.
pub fn read_measurement(last: &Result<i32, DeviceError>, fault_body: &str) -> (resp: HttpResponse)
    ensures
        match *last {
            Ok(v) => resp.status == STATUS_OK && resp.body@ == centi_str(v as int),
            Err(_) => resp.status == STATUS_SERVER_ERROR && resp.body@ == fault_body@,
        },
{
    match last {
        Ok(v) => HttpResponse { status: STATUS_OK, body: format_centi(*v) },
        Err(_) => HttpResponse { status: STATUS_SERVER_ERROR, body: fault_body.to_owned() },
    }
}

/// Property Handler read for a sensor property: acquire the shared state
/// cell, copy the last known outcome out, release, and serialize it. The
/// answer reflects the most recently completed poll cycle — a value no
/// older than any cycle that finished before this request started.
pub fn read_sensor_property(cell: &StateCell<Result<i32, DeviceError>>, fault_body: &str) -> (resp:
    HttpResponse)
    requires
        cell.wf(),
    ensures
        match cell.log().last() {
            Ok(v) => resp.status == STATUS_OK && resp.body@ == centi_str(v as int),
            Err(_) => resp.status == STATUS_SERVER_ERROR && resp.body@ == fault_body@,
        },
{
    let last = cell.read();
    read_measurement(&last, fault_body)
}

/// Property Handler read for a discrete on/off property: copy the last
/// known state out of the shared cell and encode it.
pub fn read_flag_property(cell: &StateCell<bool>) -> (resp: HttpResponse)
    requires
        cell.wf(),
    ensures
        resp.status == STATUS_OK,
        resp.body@ == json_bool(cell.log().last()),
{
    let on = cell.read();
    HttpResponse { status: STATUS_OK, body: format_json_bool(on) }
}

/// Validate an inbound brightness value against its schema: an integer
/// within zero to 255 inclusive, rejected otherwise.
pub fn validate_brightness(value: i64) -> (r: Result<u8, ValidationError>)
    ensures
        0 <= value <= 255 <==> r == Ok::<u8, ValidationError>(value as u8),
        !(0 <= value <= 255) <==> r == Err::<u8, ValidationError>(ValidationError),
{
    if 0 <= value && value <= 255 {
        Ok(value as u8)
    } else {
        Err(ValidationError)
    }
}

/// Validate an inbound color value against its schema: three integers, each
/// within zero to 255 inclusive, rejected otherwise.
pub fn validate_color(r: i64, g: i64, b: i64) -> (c: Result<Rgb, ValidationError>)
    ensures
        (0 <= r <= 255 && 0 <= g <= 255 && 0 <= b <= 255) <==> c == Ok::<Rgb, ValidationError>(
            Rgb { r: r as u8, g: g as u8, b: b as u8 },
        ),
        !(0 <= r <= 255 && 0 <= g <= 255 && 0 <= b <= 255) <==> c == Err::<Rgb, ValidationError>(
            ValidationError,
        ),
{
    if 0 <= r && r <= 255 && 0 <= g && g <= 255 && 0 <= b && b <= 255 {
        Ok(Rgb { r: r as u8, g: g as u8, b: b as u8 })
    } else {
        Err(ValidationError)
    }
}

/// Answer a write request from the device's result: no content on
/// success, a server error on a transient device fault.
pub fn write_response(result: Result<(), DeviceError>) -> (resp: HttpResponse)
    ensures
        match result {
            Ok(_) => resp.status == STATUS_NO_CONTENT && resp.body@ == Seq::<char>::empty(),
            Err(_) => resp.status == STATUS_SERVER_ERROR && resp.body@ == "device fault"@,
        },
{
    match result {
        Ok(_) => HttpResponse { status: STATUS_NO_CONTENT, body: String::new() },
        Err(_) => HttpResponse { status: STATUS_SERVER_ERROR, body: "device fault".to_owned() },
    }
}

/// A validation fault maps to a client error, and the device is not
/// touched.
pub fn validation_response(_e: ValidationError) -> (resp: HttpResponse)
    ensures
        resp.status == STATUS_BAD_REQUEST,
{
    HttpResponse { status: STATUS_BAD_REQUEST, body: "value out of range".to_owned() }
}

/// Write round-trip: writing `value` to the `on` property and then reading
/// it, with no intervening write or fault, answers `value`'s encoding. The
/// premises are exactly what the write handler (`Light::power`) and the
/// read handler (`read_on`) ensure.
pub proof fn lemma_write_round_trip(light_after_write: Light, value: bool, read_body: Seq<char>)
    requires
        light_after_write.on == value,
        read_body == json_bool(light_after_write.on),
    ensures
        read_body == json_bool(value),
{
}

} // verus!
