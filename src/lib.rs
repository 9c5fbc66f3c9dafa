// Sampling and aggregation engine of a terminal host monitor: per-source
// samplers (host, GPU, container runtime), rate and history arithmetic, and
// the collector that merges one tick into a snapshot.

pub mod collector;
pub mod config;
pub mod container_monitor;
pub mod format;
pub mod gpu_monitor;
pub mod history;
pub mod layout;
pub mod rate;
pub mod service;
pub mod sort;
pub mod system_monitor;
pub mod types;
