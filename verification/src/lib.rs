//! In-memory synchronization core for a small telemetry/actuation relay.
//!
//! A sensor pushes readings, a dashboard polls the latest one, and a device
//! polls for operator commands. The core is two small stores: a
//! latest-value snapshot cell and an edge-triggered command cell whose
//! pending flag is delivered to exactly one poll before clearing itself.

pub mod command;
pub mod relay;
pub mod snapshot;
