//! Metrics as bytes for a serial line.

pub mod app_message;
pub mod serial_ext;
