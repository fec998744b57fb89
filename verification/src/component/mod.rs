//! The boat's components, one module each.

pub mod bms;
pub mod lte;
pub mod motor_status;
pub mod pmu;
pub mod system_stats;
pub mod vesc;
