//! Telemetry and control core of a solar boat.
//!
//! The crate bridges a CAN bus that carries battery, motor and power-unit
//! traffic to a stream of named metrics. Its centre is the bus-master engine
//! of the battery management system in [`component::bms`]: it discovers
//! battery packs, hands out short bus addresses, polls every known pack and
//! turns the packs' answers into metrics. The other components decode the
//! fixed frames of the power unit, the motor controller and the motor status
//! sensor and read the lines of the cellular modem.
//!
//! The library decides and computes; it neither waits nor sends. Sockets,
//! timers and channels belong to the program around it, which hands frames
//! and the time in and takes requests and metrics out. Of the world outside
//! the library touches two things: the frames of the `socketcan` crate, in
//! [`can`], and the system clock, in [`helper`].

pub mod bytes;
pub mod can;
pub mod component;
pub mod helper;
pub mod messaging;
pub mod transport;
