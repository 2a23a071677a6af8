//! Verified core of a temperature-driven fan controller.
//!
//! The library holds everything that can be stated and proved: decimal
//! parsing of configuration values, the sensor-reading conversion from
//! millidegrees to whole degrees, and the hysteresis state machine that
//! decides each loop iteration. The surrounding process (environment
//! variables, GPIO, signals, sleeping) lives outside the library and
//! feeds it plain values.

pub mod config;
pub mod controller;
pub mod parse;
pub mod sensor;
