//! Verified core of a host resource sampler.
//!
//! A sample is a point-in-time record of processor load, memory, the usage of
//! one representative disk, network throughput, the hottest sensor and the
//! one-minute load average. The host's accessors are refreshed by the caller;
//! everything that is decided or computed from them is done here, with
//! contracts that Verus proves.

pub mod binary32;
pub mod disk;
pub mod host;
pub mod network;
pub mod sampler;
pub mod temperature;

pub use binary32::Binary32;
pub use disk::{select_disk, DiskUsage, Volume};
pub use host::{compute_network_rates, disk_usage, network_totals, peak_temperature};
pub use network::{sum_counters, NetworkSample, RateTracker, Throughput};
pub use sampler::{assemble, compose, sample, Gauges, ResourceSnapshot};
pub use temperature::peak_reading;
