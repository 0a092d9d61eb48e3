//! Tests for producer construction options and the network and disk
//! counter paths end to end.

use litemon::disk::DiskEntry;
use litemon::disk::DiskMetrics;
use litemon::disk::IOMetrics;
use litemon::net::NetworkStats;
use litemon::net::RawInterfaceCounters;
use litemon::producer::DiskStatsCollector;
use litemon::producer::FilesystemStatsCollector;
use litemon::producer::NetworkStatsCollector;
use litemon::registry::MetricValue;
use litemon::registry::Registry;

fn opts(key: &str, value: &str) -> Vec<(String, String)> {
    vec![(key.to_string(), value.to_string())]
}

#[test]
fn network_interfaces_default_to_eth0() {
    let producer = NetworkStatsCollector::new(&Vec::new());
    assert_eq!(producer.interfaces, vec!["eth0"]);
}

#[test]
fn network_interfaces_split_and_trimmed() {
    let producer = NetworkStatsCollector::new(&opts("interfaces", "eth0, wlan0 ,lo"));
    assert_eq!(producer.interfaces, vec!["eth0", "wlan0", "lo"]);
}

#[test]
fn mountpoints_default_to_root() {
    let fs = FilesystemStatsCollector::new(&Vec::new());
    assert_eq!(fs.mountpoints, vec!["/"]);
    let disk = DiskStatsCollector::new(&Vec::new());
    assert_eq!(disk.mountpoints, vec!["/"]);
}

fn iface(name: &str, recv_bytes: u64) -> RawInterfaceCounters {
    RawInterfaceCounters {
        name: name.to_string(),
        recv_bytes,
        recv_errs: 0,
        recv_drop: 0,
        sent_bytes: 0,
        sent_errs: 0,
        sent_drop: 0,
    }
}

#[test]
fn network_counters_compose_additively_and_clamp_resets() {
    let producer = NetworkStatsCollector::new(&opts("interfaces", "eth0"));
    let mut reg = Registry::new();
    producer.register(&mut reg);
    let labels = vec!["eth0".to_string()];

    // first scrape: raw total published in full
    let (writes, res) = producer.collect(Ok(NetworkStats::from_raw(&vec![iface("eth0", 1000)])));
    assert!(res.is_ok());
    reg.apply_writes(writes);
    assert_eq!(
        reg.get_value("litemon_net_bytes_received", &labels),
        Some(MetricValue { num: 1000, den: 1 })
    );

    // growth: the published counter rises by exactly the raw growth
    let (writes, _) = producer.collect(Ok(NetworkStats::from_raw(&vec![iface("eth0", 1500)])));
    reg.apply_writes(writes);
    assert_eq!(
        reg.get_value("litemon_net_bytes_received", &labels),
        Some(MetricValue { num: 1500, den: 1 })
    );

    // reset: the increment clamps to zero, the counter never moves back
    let (writes, _) = producer.collect(Ok(NetworkStats::from_raw(&vec![iface("eth0", 200)])));
    reg.apply_writes(writes);
    assert_eq!(
        reg.get_value("litemon_net_bytes_received", &labels),
        Some(MetricValue { num: 1500, den: 1 })
    );
}

#[test]
fn network_untracked_interfaces_are_ignored() {
    let producer = NetworkStatsCollector::new(&opts("interfaces", "eth0"));
    let mut reg = Registry::new();
    producer.register(&mut reg);
    let (writes, res) = producer.collect(Ok(NetworkStats::from_raw(&vec![iface("wlan0", 42)])));
    assert!(res.is_ok());
    assert!(writes.is_empty());
}

#[test]
fn disk_collect_filters_by_mountpoint() {
    let producer = DiskStatsCollector::new(&opts("mountpoints", "/"));
    let mut reg = Registry::new();
    producer.register(&mut reg);
    let io = IOMetrics {
        disks: vec![
            DiskEntry {
                device: "sda1".to_string(),
                metrics: DiskMetrics {
                    bytes_read_total: 512,
                    bytes_written_total: 1024,
                    mountpoint: "/".to_string(),
                },
            },
            DiskEntry {
                device: "sdb1".to_string(),
                metrics: DiskMetrics {
                    bytes_read_total: 7,
                    bytes_written_total: 9,
                    mountpoint: "/data".to_string(),
                },
            },
        ],
    };
    let (writes, res) = producer.collect(Ok(io));
    assert!(res.is_ok());
    reg.apply_writes(writes);
    let labels = vec!["sda1".to_string(), "/".to_string()];
    assert_eq!(
        reg.get_value("litemon_disk_bytes_read_total", &labels),
        Some(MetricValue { num: 512, den: 1 })
    );
    assert_eq!(
        reg.get_value("litemon_disk_bytes_written_total", &labels),
        Some(MetricValue { num: 1024, den: 1 })
    );
    // the disk mounted elsewhere produced no series
    let other = vec!["sdb1".to_string(), "/data".to_string()];
    assert_eq!(reg.get_value("litemon_disk_bytes_read_total", &other), None);
}
