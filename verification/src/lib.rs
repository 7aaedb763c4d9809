//! Verified core of an environmental-beacon reading pipeline.
//!
//! Low-power temperature/humidity/battery sensors broadcast a fixed binary
//! payload. This library decodes that payload, resolves the broadcasting
//! device to a configured logical sensor, suppresses duplicate readings
//! within a fixed time window, and renders one normalized record per
//! accepted reading. Radio I/O and configuration loading live outside the
//! library; everything here is specified and verified.

pub mod display;
pub mod pipeline;
pub mod reading;
pub mod registry;
pub mod sensor;
pub mod temperature;
pub mod timefmt;
pub mod tracker;
