//! The motor controller: its status frames to metrics.
//!
//! The controller puts its own number in the low eight bits of the
//! identifier and the kind of the message in the bits above them. Every
//! message has eight bytes.

pub mod can_messages;
pub mod decoder;
