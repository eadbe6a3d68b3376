//! A TCP port-forwarding engine: rule identifiers, the registry of running
//! rules, port-range mapping, the error callback's slot, and the decisions of
//! each forwarding worker. Sockets and the task runtime are driven by the
//! caller.

pub mod engine;
pub mod error;
pub mod handle;
pub mod ports;
pub mod report;
pub mod rule_id;
pub mod worker;
