//! Disk I/O counters: bytes read and written per mounted physical disk.
//!
//! `/proc/diskstats` counts sectors; multiplying by the root device's
//! sector size gives bytes.  Only mounts of `/dev/...` devices outside
//! the pseudo-filesystem roots are counted.  Deriving the byte totals
//! happens in two verified steps around one unavoidable read per disk:
//! [`disk_scan_plan`] decides, from the mount table and the raw disk
//! stats, which disks to report and which root device's sector size
//! each needs; [`IOMetrics::from_plan`] then turns the plan and the
//! sector sizes into byte totals.

use vstd::prelude::*;

use crate::delta::cap_mul;
use crate::mounts::is_pseudo_path;
use crate::mounts::MountEntry;
use crate::mounts::MountEntryV;
use crate::strutil::starts_with_spec;

verus! {

/// One `/proc/diskstats` row: a device name and its cumulative sector
/// counters.
#[derive(Clone, PartialEq, Eq, Debug)]
pub struct RawDiskStat {
    pub name: String,
    pub sectors_read: u64,
    pub sectors_written: u64,
}

/// Mathematical image of a [`RawDiskStat`].
#[verifier::ext_equal]
pub struct RawDiskStatV {
    pub name: Seq<char>,
    pub sectors_read: u64,
    pub sectors_written: u64,
}

impl View for RawDiskStat {
    type V = RawDiskStatV;

    open spec fn view(&self) -> RawDiskStatV {
        RawDiskStatV {
            name: self.name@,
            sectors_read: self.sectors_read,
            sectors_written: self.sectors_written,
        }
    }
}

impl DeepView for RawDiskStat {
    type V = RawDiskStatV;

    open spec fn deep_view(&self) -> RawDiskStatV {
        self@
    }
}

/// Metrics about a single disk.
#[derive(Clone, PartialEq, Eq, Debug)]
pub struct DiskMetrics {
    /// Bytes read since boot.
    pub bytes_read_total: u64,
    /// Bytes written since boot.
    pub bytes_written_total: u64,
    /// Mountpoint.
    pub mountpoint: String,
}

/// Mathematical image of a [`DiskMetrics`].
#[verifier::ext_equal]
pub struct DiskMetricsV {
    pub bytes_read_total: u64,
    pub bytes_written_total: u64,
    pub mountpoint: Seq<char>,
}

impl View for DiskMetrics {
    type V = DiskMetricsV;

    open spec fn view(&self) -> DiskMetricsV {
        DiskMetricsV {
            bytes_read_total: self.bytes_read_total,
            bytes_written_total: self.bytes_written_total,
            mountpoint: self.mountpoint@,
        }
    }
}

impl DeepView for DiskMetrics {
    type V = DiskMetricsV;

    open spec fn deep_view(&self) -> DiskMetricsV {
        self@
    }
}

/// One disk's metrics under its device name.
#[derive(Clone, PartialEq, Eq, Debug)]
pub struct DiskEntry {
    /// Device name as listed in `/proc/diskstats`.
    pub device: String,
    /// The disk's metrics.
    pub metrics: DiskMetrics,
}

/// Mathematical image of a [`DiskEntry`].
#[verifier::ext_equal]
pub struct DiskEntryV {
    pub device: Seq<char>,
    pub metrics: DiskMetricsV,
}

impl View for DiskEntry {
    type V = DiskEntryV;

    open spec fn view(&self) -> DiskEntryV {
        DiskEntryV { device: self.device@, metrics: self.metrics@ }
    }
}

impl DeepView for DiskEntry {
    type V = DiskEntryV;

    open spec fn deep_view(&self) -> DiskEntryV {
        self@
    }
}

/// Metrics for every mounted physical disk, one entry per reported
/// mount.
#[derive(Clone, PartialEq, Eq, Debug)]
pub struct IOMetrics {
    /// Each reported disk is one entry.
    pub disks: Vec<DiskEntry>,
}

/// One planned disk report: which device and mountpoint to publish,
/// the raw sector counters, and the root device whose sector size
/// applies.
#[derive(Clone, PartialEq, Eq, Debug)]
pub struct DiskScan {
    /// Device name as listed in `/proc/diskstats`.
    pub device: String,
    /// Mount point the device is mounted at.
    pub mountpoint: String,
    /// Sectors read since boot.
    pub sectors_read: u64,
    /// Sectors written since boot.
    pub sectors_written: u64,
    /// Root device (e.g. `sda` for `sda1`) whose sector size applies.
    pub root_device: String,
}

/// Mathematical image of a [`DiskScan`].
#[verifier::ext_equal]
pub struct DiskScanV {
    pub device: Seq<char>,
    pub mountpoint: Seq<char>,
    pub sectors_read: u64,
    pub sectors_written: u64,
    pub root_device: Seq<char>,
}

impl View for DiskScan {
    type V = DiskScanV;

    open spec fn view(&self) -> DiskScanV {
        DiskScanV {
            device: self.device@,
            mountpoint: self.mountpoint@,
            sectors_read: self.sectors_read,
            sectors_written: self.sectors_written,
            root_device: self.root_device@,
        }
    }
}

impl DeepView for DiskScan {
    type V = DiskScanV;

    open spec fn deep_view(&self) -> DiskScanV {
        self@
    }
}

/// First disk stat of this device name, if any.
pub open spec fn find_stat_spec(stats: Seq<RawDiskStatV>, name: Seq<char>) -> Option<RawDiskStatV>
    decreases stats.len(),
{
    if stats.len() == 0 {
        None
    } else if stats[0].name == name {
        Some(stats[0])
    } else {
        find_stat_spec(stats.skip(1), name)
    }
}

/// First disk stat whose name is a prefix of `device`: the root device
/// (`sda` for `sda1`).
pub open spec fn find_root_spec(stats: Seq<RawDiskStatV>, device: Seq<char>) -> Option<
    RawDiskStatV,
>
    decreases stats.len(),
{
    if stats.len() == 0 {
        None
    } else if starts_with_spec(device, stats[0].name) {
        Some(stats[0])
    } else {
        find_root_spec(stats.skip(1), device)
    }
}

/// The planned report for one mount: none for non-`/dev/` devices,
/// pseudo-filesystem mounts, and devices without stats or root.
pub open spec fn plan_one_spec(m: MountEntryV, stats: Seq<RawDiskStatV>) -> Option<DiskScanV> {
    if !starts_with_spec(m.fs_spec, "/dev/"@) {
        None
    } else if is_pseudo_path(m.fs_file) {
        None
    } else {
        let device_name = m.fs_spec.skip("/dev/"@.len() as int);
        match find_stat_spec(stats, device_name) {
            None => None,
            Some(st) => match find_root_spec(stats, device_name) {
                None => None,
                Some(root) => Some(
                    DiskScanV {
                        device: st.name,
                        mountpoint: m.fs_file,
                        sectors_read: st.sectors_read,
                        sectors_written: st.sectors_written,
                        root_device: root.name,
                    },
                ),
            },
        }
    }
}

/// The planned reports for a whole mount table, in mount order.
pub open spec fn plan_spec(mounts: Seq<MountEntryV>, stats: Seq<RawDiskStatV>) -> Seq<DiskScanV>
    decreases mounts.len(),
{
    if mounts.len() == 0 {
        Seq::empty()
    } else {
        let rest = plan_spec(mounts.skip(1), stats);
        match plan_one_spec(mounts[0], stats) {
            None => rest,
            Some(p) => seq![p] + rest,
        }
    }
}

/// First disk stat of this device name, by value.
fn find_stat(stats: &Vec<RawDiskStat>, name: &str) -> (r: Option<RawDiskStat>)
    ensures
        match r {
            Some(st) => find_stat_spec(stats.deep_view(), name@) == Some(st@),
            None => find_stat_spec(stats.deep_view(), name@) is None,
        },
{
    let n = stats.len();
    proof {
        assert(stats.deep_view().skip(0) =~= stats.deep_view());
    }
    let mut i: usize = 0;
    while i < n
        invariant
            0 <= i <= n,
            n == stats@.len(),
            find_stat_spec(stats.deep_view(), name@) == find_stat_spec(
                stats.deep_view().skip(i as int),
                name@,
            ),
        decreases n - i,
    {
        proof {
            assert(stats.deep_view().skip(i as int)[0] == stats.deep_view()[i as int]);
            assert(stats.deep_view().skip(i as int).skip(1) =~= stats.deep_view().skip(i + 1));
        }
        if crate::registry::str_eq(stats[i].name.as_str(), name) {
            let st = &stats[i];
            let copy = RawDiskStat {
                name: st.name.clone(),
                sectors_read: st.sectors_read,
                sectors_written: st.sectors_written,
            };
            proof {
                assert(copy@ =~~= stats.deep_view()[i as int]);
            }
            return Some(copy);
        }
        i += 1;
    }
    proof {
        assert(stats.deep_view().skip(n as int) =~= Seq::<RawDiskStatV>::empty());
    }
    None
}

/// First disk stat whose name is a prefix of `device`, by value.
fn find_root(stats: &Vec<RawDiskStat>, device: &str) -> (r: Option<RawDiskStat>)
    ensures
        match r {
            Some(st) => find_root_spec(stats.deep_view(), device@) == Some(st@),
            None => find_root_spec(stats.deep_view(), device@) is None,
        },
{
    let n = stats.len();
    proof {
        assert(stats.deep_view().skip(0) =~= stats.deep_view());
    }
    let mut i: usize = 0;
    while i < n
        invariant
            0 <= i <= n,
            n == stats@.len(),
            find_root_spec(stats.deep_view(), device@) == find_root_spec(
                stats.deep_view().skip(i as int),
                device@,
            ),
        decreases n - i,
    {
        proof {
            assert(stats.deep_view().skip(i as int)[0] == stats.deep_view()[i as int]);
            assert(stats.deep_view().skip(i as int).skip(1) =~= stats.deep_view().skip(i + 1));
        }
        if crate::strutil::str_starts_with(device, stats[i].name.as_str()) {
            let st = &stats[i];
            let copy = RawDiskStat {
                name: st.name.clone(),
                sectors_read: st.sectors_read,
                sectors_written: st.sectors_written,
            };
            proof {
                assert(copy@ =~~= stats.deep_view()[i as int]);
            }
            return Some(copy);
        }
        i += 1;
    }
    proof {
        assert(stats.deep_view().skip(n as int) =~= Seq::<RawDiskStatV>::empty());
    }
    None
}

/// Decide which disks to report: one [`DiskScan`] per mount of a
/// `/dev/...` device outside the pseudo-filesystem roots whose device
/// and root device both appear in the disk stats.
pub fn disk_scan_plan(mounts: &Vec<MountEntry>, stats: &Vec<RawDiskStat>) -> (r: Vec<DiskScan>)
    ensures
        r.deep_view() == plan_spec(mounts.deep_view(), stats.deep_view()),
{
    let ghost mounts_v = mounts.deep_view();
    let ghost stats_v = stats.deep_view();
    let n = mounts.len();
    let mut out: Vec<DiskScan> = Vec::new();
    proof {
        assert(mounts_v.skip(0) =~= mounts_v);
        assert(out.deep_view() =~~= Seq::<DiskScanV>::empty());
        assert(out.deep_view() + plan_spec(mounts_v, stats_v) =~~= plan_spec(mounts_v, stats_v));
    }
    let mut i: usize = 0;
    while i < n
        invariant
            0 <= i <= n,
            n == mounts@.len(),
            mounts_v == mounts.deep_view(),
            stats_v == stats.deep_view(),
            plan_spec(mounts_v, stats_v) == out.deep_view() + plan_spec(
                mounts_v.skip(i as int),
                stats_v,
            ),
        decreases n - i,
    {
        proof {
            assert(mounts_v.skip(i as int)[0] == mounts_v[i as int]);
            assert(mounts_v.skip(i as int).skip(1) =~= mounts_v.skip(i + 1));
        }
        let m = &mounts[i];
        if crate::strutil::str_starts_with(m.fs_spec.as_str(), "/dev/") && !crate::mounts::is_pseudo(
            m.fs_file.as_str(),
        ) {
            let plen = "/dev/".unicode_len();
            let device_name = crate::strutil::str_skip(m.fs_spec.as_str(), plen);
            let st_opt = find_stat(stats, device_name.as_str());
            match st_opt {
                None => (),
                Some(st) => {
                    let root_opt = find_root(stats, device_name.as_str());
                    match root_opt {
                        None => (),
                        Some(root) => {
                            let ghost out0 = out.deep_view();
                            let scan = DiskScan {
                                device: st.name,
                                mountpoint: m.fs_file.clone(),
                                sectors_read: st.sectors_read,
                                sectors_written: st.sectors_written,
                                root_device: root.name,
                            };
                            proof {
                                assert(scan@ =~~= plan_one_spec(mounts_v[i as int], stats_v)
                                    .unwrap());
                            }
                            out.push(scan);
                            proof {
                                assert(out.deep_view() =~~= out0.push(
                                    plan_one_spec(mounts_v[i as int], stats_v).unwrap(),
                                ));
                                assert(out0.push(plan_one_spec(mounts_v[i as int], stats_v)
                                    .unwrap()) + plan_spec(mounts_v.skip(i + 1), stats_v) =~~= out0
                                    + (seq![plan_one_spec(mounts_v[i as int], stats_v).unwrap()]
                                    + plan_spec(mounts_v.skip(i + 1), stats_v)));
                            }
                        },
                    }
                },
            }
        }
        i += 1;
    }
    proof {
        assert(mounts_v.skip(n as int) =~= Seq::<MountEntryV>::empty());
    }
    out
}

/// The byte totals of one planned report given its sector size:
/// sectors times sector size, saturating.
pub open spec fn entry_from_plan(p: DiskScanV, sector_size: u64) -> DiskEntryV {
    DiskEntryV {
        device: p.device,
        metrics: DiskMetricsV {
            bytes_read_total: cap_mul(p.sectors_read, sector_size),
            bytes_written_total: cap_mul(p.sectors_written, sector_size),
            mountpoint: p.mountpoint,
        },
    }
}

impl IOMetrics {
    /// Turn a scan plan and the sector size read for each planned
    /// entry into byte totals, entry by entry.
    pub fn from_plan(plans: &Vec<DiskScan>, sector_sizes: &Vec<u64>) -> (r: IOMetrics)
        requires
            plans@.len() == sector_sizes@.len(),
        ensures
            r.disks.deep_view().len() == plans.deep_view().len(),
            forall|i: int|
                0 <= i < plans.deep_view().len() ==> r.disks.deep_view()[i] == entry_from_plan(
                    #[trigger] plans.deep_view()[i],
                    sector_sizes@[i],
                ),
    {
        let n = plans.len();
        let mut out: Vec<DiskEntry> = Vec::new();
        let mut i: usize = 0;
        while i < n
            invariant
                0 <= i <= n,
                n == plans@.len(),
                n == sector_sizes@.len(),
                out@.len() == i,
                forall|k: int|
                    0 <= k < i ==> out.deep_view()[k] == entry_from_plan(
                        #[trigger] plans.deep_view()[k],
                        sector_sizes@[k],
                    ),
            decreases n - i,
        {
            let p = &plans[i];
            let size = sector_sizes[i];
            out.push(
                DiskEntry {
                    device: p.device.clone(),
                    metrics: DiskMetrics {
                        bytes_read_total: crate::delta::sat_mul(p.sectors_read, size),
                        bytes_written_total: crate::delta::sat_mul(p.sectors_written, size),
                        mountpoint: p.mountpoint.clone(),
                    },
                },
            );
            i += 1;
        }
        IOMetrics { disks: out }
    }
}

} // verus!
