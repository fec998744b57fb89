//! The bus-master engine of the battery management system.
//!
//! Battery packs power up without a bus address. The engine asks the whole
//! bus for serial numbers, keeps every pack that answers in a registry,
//! numbers the packs from one upwards in ascending order of their serial
//! numbers and tells each pack its number. It then polls every known pack in
//! a fixed cycle and turns the frames that come back into named metrics.
//!
//! The parts, leaf first: [`codec`] turns identifiers and payloads into
//! typed messages and requests into payloads; [`registry`] holds the packs;
//! [`discovery`] renews the addresses when the registry changes in size and
//! watches for storms of such changes; [`scheduler`] says what to send in
//! each phase of the polling cycle; [`demux`] turns every inbound frame into
//! its metrics. [`arrival_order`] shows that the addresses do not depend on
//! the order in which the packs answer.
//!
//! Addressing. Frames from the packs carry the pack's short address in the
//! identifier: the function code is the low twelve bits, the address the
//! eight bits above them. A frame whose address is not one of 1 to 9 is a
//! broadcast of the cluster's master. Frames from the engine go out on the
//! two fixed request identifiers of [`structs::EmsRequest`], which are
//! standard identifiers, and name their target by its serial number in the
//! payload.
//!
//! Requests and answers. Nothing ties an answer to a request. A metric is
//! the value that was last seen for its field, stamped with the time at
//! which its frame was received.
//!
//! Discovery. The serial-number query goes out once per search interval.
//! The registry is held against its size at the cycle before once per
//! polling cycle, in the discovery phase, whether or not the query went out
//! in that phase; a change in size is the one thing that renews the
//! addresses. A pack that stops answering stays for ever or is forgotten
//! after a number of missed discovery cycles, as the
//! [`registry::EvictionPolicy`] says.
//!
//! Two duties work on the engine: one runs the scheduler and writes to the
//! registry, the other reads the bus and hands the packs that it discovers
//! to the first. The registry has that one writer.

pub mod arrival_order;
pub mod codec;
pub mod demux;
pub mod discovery;
pub mod error;
pub mod metrics;
pub mod registry;
pub mod request;
pub mod scheduler;
pub mod structs;
