//! Supervisory lifecycle, watchdog and low-power reset engine for an
//! unattended sensor node.
//!
//! The library models the decision logic of the supervisor: a lifecycle
//! ledger that survives resets, a watchdog deadline and its feeding policy,
//! the deep-sleep scheduling strategies, the fault-recovery classification,
//! and the status indicator. Hardware register access and network I/O live
//! outside the library and exchange plain values with it.

pub mod buffer;
pub mod config;
pub mod fault;
pub mod indicator;
pub mod lifecycle;
pub mod mqtt;
pub mod radio;
pub mod sensor;
pub mod sleep;
pub mod watchdog;
