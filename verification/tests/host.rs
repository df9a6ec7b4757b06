use resource_sampler::binary32::Binary32;
use resource_sampler::disk::DiskUsage;
use resource_sampler::host::{compute_network_rates, disk_usage, network_totals, peak_temperature};
use resource_sampler::network::{NetworkSample, RateTracker};
use resource_sampler::sampler::{sample, Gauges};
use std::path::Path;
use sysinfo::{Components, Disks, Networks};

const SECOND: u64 = 1_000_000_000;

fn gauges() -> Gauges {
    Gauges {
        cpu_percent: Binary32::from_bits(25.0f32.to_bits()),
        memory_used_bytes: 1_000,
        memory_total_bytes: 4_000,
        load_avg_1m: Binary32::from_bits(1.5f32.to_bits()),
    }
}

fn expected_disk(disks: &Disks) -> DiskUsage {
    let mut selected: Option<(u64, u64)> = None;
    for disk in disks.list() {
        let total = disk.total_space();
        let used = total.saturating_sub(disk.available_space());
        if disk.mount_point() == Path::new("/") {
            selected = Some((used, total));
            break;
        }
        match selected {
            Some((_, current)) if total <= current => {}
            _ => selected = Some((used, total)),
        }
    }
    let (used, total) = selected.unwrap_or((0, 0));
    DiskUsage { used, total }
}

fn expected_totals(networks: &Networks) -> (u64, u64) {
    let mut totals = (0u64, 0u64);
    for data in networks.list().values() {
        totals.0 = totals.0.saturating_add(data.total_received());
        totals.1 = totals.1.saturating_add(data.total_transmitted());
    }
    totals
}

fn expected_peak(components: &Components) -> Option<f32> {
    components
        .list()
        .iter()
        .map(|component| component.temperature())
        .filter(|celsius| celsius.is_finite())
        .reduce(|peak, celsius| peak.max(celsius))
}

#[test]
fn empty_accessors_give_zeros_and_no_temperature() {
    assert_eq!(disk_usage(&Disks::new()), DiskUsage { used: 0, total: 0 });
    assert_eq!(network_totals(&Networks::new()), (0, 0));
    assert_eq!(peak_temperature(&Components::new()), None);
}

#[test]
fn disk_usage_follows_the_listed_volumes() {
    let disks = Disks::new_with_refreshed_list();
    assert_eq!(disk_usage(&disks), expected_disk(&disks));
    let usage = disk_usage(&disks);
    assert!(usage.used <= usage.total);
}

#[test]
fn network_totals_add_up_the_listed_interfaces() {
    let networks = Networks::new_with_refreshed_list();
    assert_eq!(network_totals(&networks), expected_totals(&networks));
}

#[test]
fn peak_temperature_follows_the_listed_sensors() {
    let components = Components::new_with_refreshed_list();
    let reported = peak_temperature(&components).map(|r| f32::from_bits(r.to_bits()));
    assert_eq!(reported, expected_peak(&components));
}

#[test]
fn rates_from_an_accessor_start_at_nothing_and_retain_its_totals() {
    let networks = Networks::new_with_refreshed_list();
    let (rx, tx) = expected_totals(&networks);
    let mut tracker = RateTracker::new();
    let moved = compute_network_rates(&networks, &mut tracker, 10 * SECOND);
    assert_eq!((moved.received, moved.transmitted), (0, 0));
    assert_eq!(tracker.last(), Some(NetworkSample { rx_total: rx, tx_total: tx, instant: 10 * SECOND }));
    let moved = compute_network_rates(&networks, &mut tracker, 11 * SECOND);
    assert_eq!((moved.received, moved.transmitted, moved.elapsed_nanos), (0, 0, SECOND));
}

#[test]
fn rates_from_an_accessor_are_taken_against_the_retained_totals() {
    let networks = Networks::new();
    let mut tracker = RateTracker::new();
    tracker.observe(5_000, 7_000, SECOND);
    let moved = compute_network_rates(&networks, &mut tracker, 2 * SECOND);
    assert_eq!((moved.received, moved.transmitted, moved.elapsed_nanos), (0, 0, SECOND));
    assert_eq!(tracker.last(), Some(NetworkSample { rx_total: 0, tx_total: 0, instant: 2 * SECOND }));
}

#[test]
fn sample_of_the_running_host_puts_the_parts_together() {
    let disks = Disks::new_with_refreshed_list();
    let networks = Networks::new_with_refreshed_list();
    let components = Components::new_with_refreshed_list();
    let mut tracker = RateTracker::new();
    let snapshot = sample(gauges(), &disks, &networks, &components, &mut tracker, SECOND);
    let usage = expected_disk(&disks);
    assert_eq!(snapshot.cpu_percent, gauges().cpu_percent);
    assert_eq!(snapshot.memory_used_bytes, 1_000);
    assert_eq!(snapshot.memory_total_bytes, 4_000);
    assert_eq!(snapshot.load_avg_1m, gauges().load_avg_1m);
    assert_eq!((snapshot.disk_used_bytes, snapshot.disk_total_bytes), (usage.used, usage.total));
    assert_eq!(snapshot.net_down_rate(), 0);
    assert_eq!(snapshot.net_up_rate(), 0);
    assert_eq!(
        snapshot.temperature.map(|r| f32::from_bits(r.to_bits())),
        expected_peak(&components)
    );
    let (rx, tx) = expected_totals(&networks);
    assert_eq!(tracker.last(), Some(NetworkSample { rx_total: rx, tx_total: tx, instant: SECOND }));

    let again = sample(gauges(), &disks, &networks, &components, &mut tracker, 2 * SECOND);
    assert_eq!((again.network.received, again.network.transmitted), (0, 0));
    assert_eq!(again.disk_total_bytes, snapshot.disk_total_bytes);
    assert_eq!(again.temperature, snapshot.temperature);
}
