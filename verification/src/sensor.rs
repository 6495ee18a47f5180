//! The thermometer's device driver adapter: conversion of raw sensor words
//! into fixed-point readings.
//!
//! The bus transfer that fetches a measurement word is the caller's
//! business and may fail transiently; what arrives is a raw sixteen-bit
//! word. The driver's datasheet conversion turns it into milli-units, and
//! the runtime's readings are kept in centi-units, rounded to the nearest.

use vstd::prelude::*;

use crate::debounce::round_scaled_spec;
use crate::debounce::rounded_div;

verus! {

/// The datasheet conversion of a raw temperature word to milli-degrees
/// celsius: -45 + 175 * raw / 2^16, in fixed point.
pub open spec fn raw_temperature_milli(raw: int) -> int {
    (raw * 21875) / 8192 - 45000
}

/// The datasheet conversion of a raw humidity word to milli-percent
/// relative humidity: 100 * raw / 2^16, in fixed point.
pub open spec fn raw_humidity_milli(raw: int) -> int {
    (raw * 12500) / 8192
}

/// Relies on shtcx::Temperature::from_raw and as_millidegrees_celsius: the
/// raw word is converted to milli-degrees celsius as
/// `(raw * 21875 >> 13) - 45000`, the driver's fixed-point form of the
/// datasheet formula.
#[verifier::external_body]
fn temperature_millidegrees(raw: u16) -> (r: i32)
    ensures
        r as int == raw_temperature_milli(raw as int),
{
    shtcx::Temperature::from_raw(raw).as_millidegrees_celsius()
}

/// Relies on shtcx::Humidity::from_raw and as_millipercent: the raw word is
/// converted to milli-percent as `raw * 12500 >> 13`, the driver's
/// fixed-point form of the datasheet formula.
#[verifier::external_body]
fn humidity_millipercent(raw: u16) -> (r: i32)
    ensures
        r as int == raw_humidity_milli(raw as int),
{
    shtcx::Humidity::from_raw(raw).as_millipercent()
}

/// The latest temperature measurement in centi-degrees celsius, from the
/// raw measurement word, rounded to the nearest hundredth.
pub fn temperature_centi(raw: u16) -> (r: i32)
    ensures
        r as int == round_scaled_spec(raw_temperature_milli(raw as int), 10),
{
    let milli = temperature_millidegrees(raw);
    rounded_div(milli, 10)
}

/// The latest humidity measurement in centi-percent relative humidity, from
/// the raw measurement word, rounded to the nearest hundredth.
pub fn humidity_centi(raw: u16) -> (r: i32)
    ensures
        r as int == round_scaled_spec(raw_humidity_milli(raw as int), 10),
{
    let milli = humidity_millipercent(raw);
    rounded_div(milli, 10)
}

} // verus!
