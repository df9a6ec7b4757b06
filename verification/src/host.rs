//! Reading the host's accessors.
//!
//! The caller owns the accessors of the `sysinfo` crate and refreshes them.
//! What a refreshed accessor holds is handed out here as plain values. These
//! three hand-outs are the only code of the library that Verus takes on
//! trust; everything that is computed from them is proved.

use crate::binary32::Binary32;
use crate::disk::{select_disk, selected_usage, views, DiskUsage, Volume, VolumeView};
use crate::network::{
    counter_sums, observation, saturated, step, sum_counters, RateTracker, Throughput,
};
use crate::temperature::{peak, peak_reading};
use sysinfo::{Components, Disks, Networks};
use vstd::multiset::Multiset;
use vstd::prelude::*;

verus! {

/// `sysinfo::Disk`, one entry of a `Disks`; opaque here.
#[verifier::external_type_specification]
#[verifier::external_body]
pub struct ExDisk(sysinfo::Disk);

/// `sysinfo::Disks`, the list of mounted volumes; opaque here.
#[verifier::external_type_specification]
#[verifier::external_body]
pub struct ExDisks(sysinfo::Disks);

/// `sysinfo::NetworkData`, the counters of one interface; opaque here.
#[verifier::external_type_specification]
#[verifier::external_body]
pub struct ExNetworkData(sysinfo::NetworkData);

/// `sysinfo::Networks`, the interfaces by name; opaque here.
#[verifier::external_type_specification]
#[verifier::external_body]
pub struct ExNetworks(sysinfo::Networks);

/// `sysinfo::Component`, one temperature sensor; opaque here.
#[verifier::external_type_specification]
#[verifier::external_body]
pub struct ExComponent(sysinfo::Component);

/// `sysinfo::Components`, the list of temperature sensors; opaque here.
#[verifier::external_type_specification]
#[verifier::external_body]
pub struct ExComponents(sysinfo::Components);

/// The volumes that a `Disks` lists, in the order of its list, each with its
/// mount point as text.
pub uninterp spec fn listed_volumes(disks: Disks) -> Seq<VolumeView>;

/// The cumulative counters of the interfaces that a `Networks` holds, each as
/// received and transmitted bytes. The accessor keeps its interfaces in a hash
/// map, so they form a bag: they have no order.
pub uninterp spec fn interface_counters(networks: Networks) -> Multiset<(u64, u64)>;

/// The temperatures of the sensors that a `Components` lists, in the order of
/// its list.
pub uninterp spec fn sensor_readings(components: Components) -> Seq<Binary32>;

/// Hands out what `Disks::list` holds: of each `Disk` its `mount_point`,
/// rendered as text, its `total_space` and its `available_space`. All three
/// return what the last refresh stored, so the contract claims no more than
/// that one list always hands out the same volumes in the same order.
#[verifier::external_body]
pub(crate) fn read_volumes(disks: &Disks) -> (volumes: Vec<Volume>)
    ensures
        views(volumes@) == listed_volumes(*disks),
{
    disks.list().iter().map(
        |disk| Volume {
            mount_point: disk.mount_point().to_string_lossy().into_owned(),
            total: disk.total_space(),
            available: disk.available_space(),
        },
    ).collect()
}

/// Hands out what `Networks::list` holds: of each `NetworkData` its
/// `total_received` and `total_transmitted`. Both return what the last
/// refresh stored. The interfaces come in the order of a hash map, so the
/// contract claims the bag of pairs and no order.
#[verifier::external_body]
pub(crate) fn read_counters(networks: &Networks) -> (counters: Vec<(u64, u64)>)
    ensures
        counters@.to_multiset() == interface_counters(*networks),
{
    networks.list().values().map(
        |data| (data.total_received(), data.total_transmitted()),
    ).collect()
}

/// Hands out what `Components::list` holds: of each `Component` its
/// `temperature`, by its bits. The accessor returns what the last refresh
/// stored, a NaN where the sensor could not be read, so the contract claims no
/// more than that one list always hands out the same readings in the same
/// order.
#[verifier::external_body]
pub(crate) fn read_temperatures(components: &Components) -> (readings: Vec<Binary32>)
    ensures
        readings@ == sensor_readings(*components),
{
    components.list().iter().map(
        |component| Binary32 { bits: component.temperature().to_bits() },
    ).collect()
}

/// Used and total bytes of the disk that stands for the host, chosen among the
/// volumes that `disks` lists.
pub fn disk_usage(disks: &Disks) -> (usage: DiskUsage)
    ensures
        usage == selected_usage(listed_volumes(*disks)),
        usage.used <= usage.total,
{
    let volumes = read_volumes(disks);
    select_disk(&volumes)
}

/// Received and transmitted bytes since boot, added up over the interfaces
/// that `networks` holds.
pub fn network_totals(networks: &Networks) -> (sums: (u64, u64))
    ensures
        sums.0 == saturated(counter_sums(interface_counters(*networks)).0),
        sums.1 == saturated(counter_sums(interface_counters(*networks)).1),
{
    let counters = read_counters(networks);
    sum_counters(&counters)
}

/// What moved over all interfaces of `networks` since the observation that
/// `tracker` retains; the totals read at `now` are retained in its place.
pub fn compute_network_rates(
    networks: &Networks,
    tracker: &mut RateTracker,
    now: u64,
) -> (moved: Throughput)
    ensures
        moved == step(old(tracker)@, observation(interface_counters(*networks), now)).0,
        final(tracker)@ == step(old(tracker)@, observation(interface_counters(*networks), now)).1,
{
    let sums = network_totals(networks);
    tracker.observe(sums.0, sums.1, now)
}

/// The peak temperature over the sensors that `components` lists: absent where
/// none of them reports a number.
pub fn peak_temperature(components: &Components) -> (reported: Option<Binary32>)
    ensures
        reported == peak(sensor_readings(*components)),
{
    let readings = read_temperatures(components);
    peak_reading(&readings)
}

} // verus!
