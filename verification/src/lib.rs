//! Core runtime for a small Web-of-Things device: the bridge between one
//! physical device driver and many concurrent HTTP request handlers and
//! long-lived event-stream subscribers, on a single-core cooperative
//! scheduler.
//!
//! The crate holds the verified logic of that bridge: the shared-state cell
//! that serializes access to the last known device value, the bounded
//! latest-value change channel that fans a publish out to independent
//! subscriber cursors, the polling and debounce policy that turns raw sensor
//! reads into discrete change events, the per-connection event-stream step,
//! the property read/write handlers, and the wire formatting of property
//! values. Network transport, hardware buses and the cooperative executor
//! stay outside; they hand these functions plain values and carry the
//! results.

use vstd::prelude::*;

pub mod cell;
pub mod channel;
pub mod debounce;
pub mod fmt;
pub mod handlers;
pub mod ident;
pub mod light;
pub mod sensor;
pub mod stream;
pub mod update;

verus! {

/// A transient device bus or communication fault. Callers degrade to a
/// server error for the single affected request or poll cycle and retry on
/// the next one; it is never fatal to the process.
#[derive(Clone, Copy, PartialEq, Eq, Structural, Debug)]
pub struct DeviceError;

} // verus!
