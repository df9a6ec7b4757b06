//! One sample of the host.
//!
//! A sample puts together what the host reports as it stands (processor load,
//! memory, load average) with what is derived: the usage of the chosen disk,
//! what moved over the network since the previous sample, and the peak
//! temperature. It never fails: a host without disks, interfaces or sensors
//! gives zeros and an absent temperature.

use crate::binary32::Binary32;
use crate::disk::{select_disk, selected_usage, views, DiskUsage, Volume, VolumeView};
use crate::host::{
    compute_network_rates, disk_usage, interface_counters, listed_volumes, peak_temperature,
    sensor_readings,
};
use crate::network::{
    kb_per_sec, lemma_flat_counters_report_zero, observation, step, sum_counters,
    NetworkSample, RateTracker, Throughput,
};
use crate::temperature::{peak, peak_reading};
use sysinfo::{Components, Disks, Networks};
use vstd::multiset::Multiset;
use vstd::prelude::*;

verus! {

/// What the host reports as it stands, with nothing to derive.
#[derive(Clone, Copy, Debug, PartialEq, Eq, Structural)]
pub struct Gauges {
    /// Processor load over all cores, in percent.
    pub cpu_percent: Binary32,
    /// Memory in use, in bytes.
    pub memory_used_bytes: u64,
    /// Memory installed, in bytes.
    pub memory_total_bytes: u64,
    /// Load average over the last minute.
    pub load_avg_1m: Binary32,
}

/// A point-in-time record of the host's resources.
#[derive(Clone, Copy, Debug, PartialEq, Eq)]
pub struct ResourceSnapshot {
    /// Processor load over all cores, in percent; as the host reports it, so
    /// it may pass a hundred.
    pub cpu_percent: Binary32,
    /// Memory in use, in bytes.
    pub memory_used_bytes: u64,
    /// Memory installed, in bytes.
    pub memory_total_bytes: u64,
    /// Bytes used on the chosen disk; zero where the host has no disk.
    pub disk_used_bytes: u64,
    /// Capacity of the chosen disk; zero where the host has no disk.
    pub disk_total_bytes: u64,
    /// What moved over the network since the previous sample.
    pub network: Throughput,
    /// The peak temperature; absent where no sensor reports a number.
    pub temperature: Option<Binary32>,
    /// Load average over the last minute.
    pub load_avg_1m: Binary32,
}

/// The sample made of the host's gauges and the three derived parts.
pub open spec fn snapshot_of(
    gauges: Gauges,
    usage: DiskUsage,
    moved: Throughput,
    temperature: Option<Binary32>,
) -> ResourceSnapshot {
    ResourceSnapshot {
        cpu_percent: gauges.cpu_percent,
        memory_used_bytes: gauges.memory_used_bytes,
        memory_total_bytes: gauges.memory_total_bytes,
        disk_used_bytes: usage.used,
        disk_total_bytes: usage.total,
        network: moved,
        temperature,
        load_avg_1m: gauges.load_avg_1m,
    }
}

/// The sample that a host in this state gives at `now`, when `last` is the
/// observation retained from the sample before.
pub open spec fn sample_of(
    last: Option<NetworkSample>,
    gauges: Gauges,
    volumes: Seq<VolumeView>,
    interfaces: Multiset<(u64, u64)>,
    readings: Seq<Binary32>,
    now: u64,
) -> ResourceSnapshot {
    snapshot_of(
        gauges,
        selected_usage(volumes),
        step(last, observation(interfaces, now)).0,
        peak(readings),
    )
}

/// A host that has not changed between two samples, the second taken on the
/// state that the first left, gives the same sample again but for the network
/// part, and there it reports that nothing moved: both rates are zero,
/// however much time has passed.
pub proof fn lemma_steady_host_repeats(
    last: Option<NetworkSample>,
    gauges: Gauges,
    volumes: Seq<VolumeView>,
    interfaces: Multiset<(u64, u64)>,
    readings: Seq<Binary32>,
    first: u64,
    second: u64,
)
    ensures
        ({
            let one = sample_of(last, gauges, volumes, interfaces, readings, first);
            let two = sample_of(
                step(last, observation(interfaces, first)).1,
                gauges,
                volumes,
                interfaces,
                readings,
                second,
            );
            &&& two == ResourceSnapshot { network: two.network, ..one }
            &&& two.network.received == 0
            &&& two.network.transmitted == 0
            &&& kb_per_sec(two.network.received, two.network.elapsed_nanos) == 0
            &&& kb_per_sec(two.network.transmitted, two.network.elapsed_nanos) == 0
        }),
{
    lemma_flat_counters_report_zero(observation(interfaces, first), second);
}

impl ResourceSnapshot {
    /// Download rate in units of 1024 bytes per second, rounded down.
    pub fn net_down_rate(&self) -> (rate: u64)
        ensures
            rate == kb_per_sec(self.network.received, self.network.elapsed_nanos),
    {
        self.network.down_kb_per_sec()
    }

    /// Upload rate in units of 1024 bytes per second, rounded down.
    pub fn net_up_rate(&self) -> (rate: u64)
        ensures
            rate == kb_per_sec(self.network.transmitted, self.network.elapsed_nanos),
    {
        self.network.up_kb_per_sec()
    }
}

/// Puts a sample together from the host's gauges and the three derived parts.
pub fn compose(
    gauges: Gauges,
    usage: DiskUsage,
    moved: Throughput,
    temperature: Option<Binary32>,
) -> (snapshot: ResourceSnapshot)
    ensures
        snapshot == snapshot_of(gauges, usage, moved, temperature),
{
    ResourceSnapshot {
        cpu_percent: gauges.cpu_percent,
        memory_used_bytes: gauges.memory_used_bytes,
        memory_total_bytes: gauges.memory_total_bytes,
        disk_used_bytes: usage.used,
        disk_total_bytes: usage.total,
        network: moved,
        temperature,
        load_avg_1m: gauges.load_avg_1m,
    }
}

/// Makes a sample from what was read off the host: its gauges, its volumes,
/// the counters of its interfaces and the readings of its sensors, taken at
/// `now`. The observation that `tracker` retains is replaced by this one.
pub fn assemble(
    gauges: Gauges,
    volumes: &Vec<Volume>,
    interfaces: &Vec<(u64, u64)>,
    readings: &Vec<Binary32>,
    tracker: &mut RateTracker,
    now: u64,
) -> (snapshot: ResourceSnapshot)
    ensures
        snapshot == sample_of(
            old(tracker)@,
            gauges,
            views(volumes@),
            interfaces@.to_multiset(),
            readings@,
            now,
        ),
        final(tracker)@ == step(old(tracker)@, observation(interfaces@.to_multiset(), now)).1,
        snapshot.disk_used_bytes <= snapshot.disk_total_bytes,
{
    let usage = select_disk(volumes);
    let sums = sum_counters(interfaces);
    let moved = tracker.observe(sums.0, sums.1, now);
    let temperature = peak_reading(readings);
    compose(gauges, usage, moved, temperature)
}

/// Makes a sample from the host's gauges and its refreshed accessors, taken at
/// `now`. The observation that `tracker` retains is replaced by this one.
pub fn sample(
    gauges: Gauges,
    disks: &Disks,
    networks: &Networks,
    components: &Components,
    tracker: &mut RateTracker,
    now: u64,
) -> (snapshot: ResourceSnapshot)
    ensures
        snapshot == sample_of(
            old(tracker)@,
            gauges,
            listed_volumes(*disks),
            interface_counters(*networks),
            sensor_readings(*components),
            now,
        ),
        final(tracker)@ == step(old(tracker)@, observation(interface_counters(*networks), now)).1,
        snapshot.disk_used_bytes <= snapshot.disk_total_bytes,
{
    let usage = disk_usage(disks);
    let moved = compute_network_rates(networks, tracker, now);
    let temperature = peak_temperature(components);
    compose(gauges, usage, moved, temperature)
}

} // verus!
