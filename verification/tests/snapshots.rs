//! Tests for the network, disk, and filesystem snapshot logic.

use litemon::disk::disk_scan_plan;
use litemon::disk::IOMetrics;
use litemon::disk::RawDiskStat;
use litemon::fs::fs_info_for;
use litemon::fs::FilesystemUsage;
use litemon::fs::FsError;
use litemon::fs::RawFsStat;
use litemon::mounts::MountEntry;
use litemon::net::NetworkStats;
use litemon::net::RawInterfaceCounters;
use litemon::registry::MetricValue;

fn iface(name: &str, recv_bytes: u64, recv_errs: u64, recv_drop: u64) -> RawInterfaceCounters {
    RawInterfaceCounters {
        name: name.to_string(),
        recv_bytes,
        recv_errs,
        recv_drop,
        sent_bytes: 0,
        sent_errs: 0,
        sent_drop: 0,
    }
}

#[test]
fn network_from_raw_folds_errors_and_drops() {
    let stats = NetworkStats::from_raw(&vec![iface("eth0", 1000, 3, 4)]);
    let st = stats.find("eth0").unwrap();
    assert_eq!(st.recv_bytes, 1000);
    assert_eq!(st.recv_errors, 7);
    assert_eq!(st.period_ms, None);
    assert!(stats.find("wlan0").is_none());
}

#[test]
fn network_diff_publishes_increments() {
    // recv_bytes 1000 -> 1500 over a period yields 500, not 1500.
    let prev = NetworkStats::from_raw(&vec![iface("eth0", 1000, 0, 0)]);
    let now = NetworkStats::from_raw(&vec![iface("eth0", 1500, 0, 0)]);
    let diff = NetworkStats::diff(&now, &prev, 250);
    let st = diff.find("eth0").unwrap();
    assert_eq!(st.recv_bytes, 500);
    assert_eq!(st.period_ms, Some(250));
}

#[test]
fn network_diff_clamps_resets() {
    // 5000 -> 200 (reboot): the increment is 0, never negative.
    let prev = NetworkStats::from_raw(&vec![iface("eth0", 5000, 0, 0)]);
    let now = NetworkStats::from_raw(&vec![iface("eth0", 200, 0, 0)]);
    let diff = NetworkStats::diff(&now, &prev, 250);
    assert_eq!(diff.find("eth0").unwrap().recv_bytes, 0);
}

#[test]
fn network_diff_drops_vanished_interfaces() {
    let prev = NetworkStats::from_raw(&vec![iface("eth0", 10, 0, 0), iface("wlan0", 5, 0, 0)]);
    let now = NetworkStats::from_raw(&vec![iface("eth0", 20, 0, 0)]);
    let diff = NetworkStats::diff(&now, &prev, 100);
    assert_eq!(diff.interfaces.len(), 1);
    assert_eq!(diff.interfaces[0].name, "eth0");
}

fn mount(spec: &str, file: &str, vfstype: &str) -> MountEntry {
    MountEntry {
        fs_spec: spec.to_string(),
        fs_file: file.to_string(),
        fs_vfstype: vfstype.to_string(),
    }
}

fn disk(name: &str, sectors_read: u64, sectors_written: u64) -> RawDiskStat {
    RawDiskStat {
        name: name.to_string(),
        sectors_read,
        sectors_written,
    }
}

#[test]
fn disk_plan_filters_and_finds_root_device() {
    let mounts = vec![
        mount("/dev/sda1", "/", "ext4"),
        mount("proc", "/proc", "proc"),
        mount("/dev/sdb2", "/proc/fake", "ext4"), // pseudo mountpoint: skipped
        mount("/dev/nvme0n1p1", "/boot", "vfat"),
        mount("/dev/sdz1", "/data", "ext4"), // no stats: skipped
    ];
    let stats = vec![
        disk("sda", 100, 200),
        disk("sda1", 60, 70),
        disk("nvme0n1p1", 10, 20),
    ];
    let plan = disk_scan_plan(&mounts, &stats);
    assert_eq!(plan.len(), 2);
    assert_eq!(plan[0].device, "sda1");
    assert_eq!(plan[0].mountpoint, "/");
    assert_eq!(plan[0].sectors_read, 60);
    // the first stat whose name prefixes "sda1" is "sda"
    assert_eq!(plan[0].root_device, "sda");
    assert_eq!(plan[1].device, "nvme0n1p1");
    assert_eq!(plan[1].root_device, "nvme0n1p1");
}

#[test]
fn disk_bytes_from_sectors() {
    let mounts = vec![mount("/dev/sda1", "/", "ext4")];
    let stats = vec![disk("sda1", 100, 50)];
    let plan = disk_scan_plan(&mounts, &stats);
    let io = IOMetrics::from_plan(&plan, &vec![512]);
    assert_eq!(io.disks.len(), 1);
    assert_eq!(io.disks[0].device, "sda1");
    assert_eq!(io.disks[0].metrics.bytes_read_total, 51200);
    assert_eq!(io.disks[0].metrics.bytes_written_total, 25600);
    assert_eq!(io.disks[0].metrics.mountpoint, "/");
}

#[test]
fn fs_info_exact_match_then_ancestors() {
    let mounts = vec![
        mount("/dev/root", "/", "ext4"),
        mount("/dev/home", "/home", "xfs"),
    ];
    // exact match
    let m = fs_info_for(&mounts, "/home").unwrap();
    assert_eq!(m.fs_vfstype, "xfs");
    // ancestor walk: /home/user is covered by /home
    let m = fs_info_for(&mounts, "/home/user").unwrap();
    assert_eq!(m.fs_vfstype, "xfs");
    assert_eq!(m.fs_spec, "/dev/home");
    // deeper path falls back to the root mount
    let m = fs_info_for(&mounts, "/var/log").unwrap();
    assert_eq!(m.fs_vfstype, "ext4");
    // no mount covers a relative path
    assert!(fs_info_for(&mounts, "relative/path").is_none());
}

#[test]
fn filesystem_usage_from_parts() {
    let mounts = vec![mount("/dev/root", "/", "ext4")];
    let raw = RawFsStat {
        block_size: 4096,
        fragment_size: 1024,
        blocks: 1000,
        blocks_free: 400,
        blocks_available: 300,
    };
    let usage = FilesystemUsage::from_parts("/", raw, &mounts).unwrap();
    // the fragment size wins when set
    assert_eq!(usage.total_bytes, 1024 * 1000);
    assert_eq!(usage.used_bytes, 1024 * 600);
    assert_eq!(usage.available_bytes, 1024 * 300);
    assert_eq!(usage.reserved_bytes, 1024 * 100);
    assert_eq!(
        usage.usage_ratio,
        MetricValue {
            num: 1024 * 600,
            den: 1024 * 1000
        }
    );
    assert_eq!(usage.fs_type, "ext4");
    assert_eq!(usage.device, "/dev/root");
    let free = usage.free_ratio();
    assert_eq!(
        free,
        MetricValue {
            num: 1024 * 400,
            den: 1024 * 1000
        }
    );
}

#[test]
fn filesystem_usage_unknown_mountpoint() {
    let mounts = vec![mount("/dev/root", "/", "ext4")];
    let raw = RawFsStat {
        block_size: 4096,
        fragment_size: 0,
        blocks: 10,
        blocks_free: 5,
        blocks_available: 5,
    };
    // a relative path is covered by no mount entry
    let r = FilesystemUsage::from_parts("nowhere", raw, &mounts);
    assert_eq!(r, Err(FsError::NoMountFound));
}

#[test]
fn whole_table_scan_filters_pseudo_devices() {
    // The whole-table usage scan visits the device column of every
    // mount, in table order, skipping entries whose device column lies
    // under a pseudo-filesystem root — which also skips `/dev/...`
    // devices themselves.
    let mounts = vec![
        mount("/dev/sda1", "/", "ext4"),
        mount("/proc/self", "/proc", "proc"),
        mount("/sys/kernel", "/sys", "sysfs"),
        mount("tmpfs", "/tmp", "tmpfs"),
    ];
    let candidates = litemon::fs::scan_candidates(&mounts);
    assert_eq!(candidates, vec!["tmpfs"]);
}

#[test]
fn filesystem_usage_zero_size() {
    let mounts = vec![mount("none", "/", "tmpfs")];
    let raw = RawFsStat {
        block_size: 0,
        fragment_size: 0,
        blocks: 0,
        blocks_free: 0,
        blocks_available: 0,
    };
    let usage = FilesystemUsage::from_parts("/", raw, &mounts).unwrap();
    assert_eq!(usage.usage_ratio, MetricValue { num: 0, den: 1 });
}
