//! Host/device transfer throughput probing and PCIe link-speed estimation.
//!
//! The library holds the logic of the tool: exact integer arithmetic on
//! measured transfer times, the nearest-entry lookup in the link-speed
//! table, the step machine that drives one probe, and the state of an
//! interactive session. The compute runtime itself is driven by the caller.
pub mod link_speed;
pub mod probe;
pub mod ratio;
pub mod session;
