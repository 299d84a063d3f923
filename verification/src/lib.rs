//! Control core of a battery-powered telemetry logger.
//!
//! The crate holds the decisions of the firmware: how readings are smoothed,
//! what is written to the measurement log and the settings record, how long
//! and how deeply the device sleeps, and when the network side is brought up.
//! Hardware access stays with the caller, which hands in plain values.

pub mod handlers;
pub mod locked;
pub mod measurement;
pub mod rtc;
pub mod scheduler;
pub mod settings;
pub mod signals;
pub mod sleeper;
pub mod smoothing;
pub mod storage;
pub mod text;
