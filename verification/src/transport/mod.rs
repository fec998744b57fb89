//! What the transports to the shore keep count of and decide.

pub mod metric_queue;
pub mod web_socket_server;
