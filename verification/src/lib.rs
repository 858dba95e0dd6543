//! A process-local metrics registry with a plaintext scrape snapshot.
//!
//! Application code updates named instruments (counters, labelled counter
//! vectors, gauges, histograms) through the functions of [`update`]; the
//! functions of [`exporter`] produce the snapshot that a monitoring system
//! fetches. The instruments themselves belong to the Prometheus client
//! library; [`instruments`] states what is assumed of them.

pub mod assoc;
pub mod config;
pub mod exporter;
pub mod host;
pub mod instruments;
pub mod labels;
pub mod laws;
pub mod register;
pub mod registry;
pub mod text;
pub mod update;
