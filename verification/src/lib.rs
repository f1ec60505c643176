//! Host monitoring core: normalises raw system counters into a metrics
//! snapshot, reads the answers of liveness probes of services and ports,
//! folds them into a health report and renders every endpoint's plaintext
//! response.
//!
//! The library does no input or output itself. The caller samples the
//! operating system and hands the counters in as plain values, and hands in
//! the functions that run a service query or try a connection.

pub mod checks;
pub mod config;
pub mod handlers;
pub mod health;
pub mod metrics;
pub mod percent;
pub mod report;
pub mod text;
