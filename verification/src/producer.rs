//! Metric producers: one per stat domain.
//!
//! A producer owns whatever state its domain needs (a previous CPU
//! snapshot, the unit cache) and exposes two capabilities mirrored by
//! every variant: `register`, which puts the domain's series
//! descriptors into the registry once, and `collect`, which turns one
//! raw reading — handed in by the caller, the engine performs no I/O —
//! into registry writes and its own next state.  A read failure makes
//! the producer report an error for the pass and leave its series
//! values untouched; it never panics and never touches another
//! producer's state.
//!
//! The closed set of domains is a tagged variant ([`Producer`]); the
//! orchestrator owns a list of them.

use vstd::prelude::*;
use vstd::string::StrSliceExecFns;
use vstd::string::StringExecFns;

use crate::cpu::cpu_time_of;
use crate::cpu::sum_times;
use crate::cpu::usage_ratio_spec;
use crate::cpu::CpuUsage;
use crate::cpu::LoadAverages;
use crate::cpu::RawCpuTicks;
use crate::disk::DiskEntryV;
use crate::disk::IOMetrics;
use crate::fs::FilesystemUsage;
use crate::memory::used_kb_spec;
use crate::memory::MemInfoReading;
use crate::net::find_interface_spec;
use crate::net::InterfaceStatsV;
use crate::net::NetworkStats;
use crate::pressure::SystemPressure;
use crate::registry::ratio_or_zero;
use crate::registry::write_wf;
use crate::registry::Descriptor;
use crate::registry::DescriptorV;
use crate::registry::MetricKind;
use crate::registry::MetricValue;
use crate::registry::Registry;
use crate::registry::SeriesWrite;
use crate::registry::WriteOp;
use crate::registry::WriteV;
use crate::strutil::dec_digits;
use crate::strutil::opts_get;
use crate::strutil::opts_get_spec;
use crate::strutil::split_and_trim;
use crate::strutil::split_trim_spec;
use crate::strutil::u64_to_dec;
use crate::systemd_unit_state::all_states_spec;
use crate::systemd_unit_state::parse_state_spec;
use crate::systemd_unit_state::state_name;
use crate::systemd_unit_state::ActiveState;
use crate::systemd_unit_state::UnitCache;

verus! {

/// A stat source could not be read; the context says which.
#[derive(Clone, PartialEq, Eq, Debug)]
pub struct ReadError {
    /// What was being read, and how it failed.
    pub context: String,
}

/// Mathematical image of a [`ReadError`].
#[verifier::ext_equal]
pub struct ReadErrorV {
    pub context: Seq<char>,
}

impl View for ReadError {
    type V = ReadErrorV;

    open spec fn view(&self) -> ReadErrorV {
        ReadErrorV { context: self.context@ }
    }
}

/// Error reported for one collection pass.
#[derive(Clone, PartialEq, Eq, Debug)]
pub enum CollectionError {
    /// A stat source could not be read.
    Read { context: String },
    /// Usage for one mount point could not be collected.
    Filesystem { mountpoint: String, context: String },
}

/// Mathematical image of a [`CollectionError`].
#[verifier::ext_equal]
pub enum CollectionErrorV {
    Read { context: Seq<char> },
    Filesystem { mountpoint: Seq<char>, context: Seq<char> },
}

impl View for CollectionError {
    type V = CollectionErrorV;

    open spec fn view(&self) -> CollectionErrorV {
        match self {
            CollectionError::Read { context } => CollectionErrorV::Read { context: context@ },
            CollectionError::Filesystem { mountpoint, context } => CollectionErrorV::Filesystem {
                mountpoint: mountpoint@,
                context: context@,
            },
        }
    }
}

/// The raw readings for one CPU pass: the load averages and the
/// per-core tick counters.
#[derive(PartialEq, Eq, Debug)]
pub struct CpuInput {
    pub load: Result<LoadAverages, ReadError>,
    pub stat: Result<Vec<RawCpuTicks>, ReadError>,
}

/// One tracked unit's reported activation state (or the failure to
/// obtain it).
#[derive(PartialEq, Eq, Debug)]
pub struct UnitStateReading {
    pub unit: String,
    pub state: Result<String, ReadError>,
}

/// One configured mount point's usage (or the failure to obtain it).
#[derive(PartialEq, Eq, Debug)]
pub struct MountUsageReading {
    pub mountpoint: String,
    pub usage: Result<FilesystemUsage, ReadError>,
}

/// The three pressure readings of one pass.
#[derive(PartialEq, Eq, Debug)]
pub struct PressureInput {
    pub io: Result<SystemPressure, ReadError>,
    pub cpu: Result<SystemPressure, ReadError>,
    pub mem: Result<SystemPressure, ReadError>,
}

/// The raw reading handed to one producer for one pass.
#[derive(PartialEq, Eq, Debug)]
pub enum ProducerInput {
    NodeInfo,
    NodeUptime(Result<u64, ReadError>),
    Cpu(CpuInput),
    Memory(Result<MemInfoReading, ReadError>),
    Systemd(Vec<UnitStateReading>),
    Network(Result<NetworkStats, ReadError>),
    Filesystem(Vec<MountUsageReading>),
    Pressure(PressureInput),
    Disk(Result<IOMetrics, ReadError>),
}

/// A gauge value, clamped to a well-formed fraction (a zero
/// denominator becomes 1, leaving integer-valued readings intact).
pub open spec fn norm_value(v: MetricValue) -> MetricValue {
    if v.den >= 1 {
        v
    } else {
        MetricValue { num: v.num, den: 1 }
    }
}

/// A write setting a gauge on a labelless series.
pub open spec fn set_plain(family: Seq<char>, v: MetricValue) -> WriteV {
    WriteV { family, labels: Seq::empty(), op: WriteOp::SetTo(v) }
}

/// Collector for memory stats.
#[derive(Clone, PartialEq, Eq, Structural, Debug)]
pub struct MemoryStatsCollector {}

/// Collector for node information (hostname, architecture).
#[derive(Clone, PartialEq, Eq, Debug)]
pub struct NodeInfoCollector {
    pub hostname: String,
    pub arch: String,
}

/// Collector for the node's uptime.
#[derive(Clone, PartialEq, Eq, Structural, Debug)]
pub struct NodeUptimeCollector {}

/// Collector for pressure-stall totals.
#[derive(Clone, PartialEq, Eq, Structural, Debug)]
pub struct PressureCollector {}

/// The writes of one memory pass.
pub open spec fn memory_writes_spec(input: Result<MemInfoReading, ReadError>) -> Seq<WriteV> {
    match input {
        Ok(m) => seq![
            set_plain("litemon_mem_used_percentage"@, ratio_or_zero(used_kb_spec(m), m.mem_total)),
        ],
        Err(_) => Seq::empty(),
    }
}

/// The error of one memory pass.
pub open spec fn memory_err_spec(input: Result<MemInfoReading, ReadError>) -> Option<
    CollectionErrorV,
> {
    match input {
        Ok(_) => None,
        Err(e) => Some(CollectionErrorV::Read { context: e.context@ }),
    }
}

/// The writes of one node-information pass: the constant `1` under the
/// hostname and architecture labels.
pub open spec fn node_info_writes_spec(p: NodeInfoCollector) -> Seq<WriteV> {
    seq![
        WriteV {
            family: "litemon_node_info"@,
            labels: seq![p.hostname@, p.arch@],
            op: WriteOp::SetTo(MetricValue { num: 1, den: 1 }),
        },
    ]
}

/// The writes of one uptime pass.
pub open spec fn node_uptime_writes_spec(input: Result<u64, ReadError>) -> Seq<WriteV> {
    match input {
        Ok(secs) => seq![
            set_plain("litemon_node_uptime"@, MetricValue { num: secs, den: 1 }),
        ],
        Err(_) => Seq::empty(),
    }
}

/// The error of one uptime pass.
pub open spec fn node_uptime_err_spec(input: Result<u64, ReadError>) -> Option<CollectionErrorV> {
    match input {
        Ok(_) => None,
        Err(e) => Some(CollectionErrorV::Read { context: e.context@ }),
    }
}

/// The writes of one pressure pass: the three stall totals, or nothing
/// when any of the three reads failed.
pub open spec fn pressure_writes_spec(input: PressureInput) -> Seq<WriteV> {
    match (input.io, input.cpu, input.mem) {
        (Ok(io), Ok(cpu), Ok(mem)) => seq![
            set_plain("litemon_io_pressure_total"@, MetricValue { num: io.total, den: 1 }),
            set_plain("litemon_cpu_pressure_total"@, MetricValue { num: cpu.total, den: 1 }),
            set_plain("litemon_memory_pressure_total"@, MetricValue { num: mem.total, den: 1 }),
        ],
        _ => Seq::empty(),
    }
}

/// The error of one pressure pass: the first failure in I/O, CPU,
/// memory order.
pub open spec fn pressure_err_spec(input: PressureInput) -> Option<CollectionErrorV> {
    match input.io {
        Err(e) => Some(CollectionErrorV::Read { context: e.context@ }),
        Ok(_) => match input.cpu {
            Err(e) => Some(CollectionErrorV::Read { context: e.context@ }),
            Ok(_) => match input.mem {
                Err(e) => Some(CollectionErrorV::Read { context: e.context@ }),
                Ok(_) => None,
            },
        },
    }
}

impl MemoryStatsCollector {
    /// The series descriptors of this producer.
    pub open spec fn descs_spec() -> Seq<DescriptorV> {
        seq![
            DescriptorV {
                name: "litemon_mem_used_percentage"@,
                help: "Memory used (0.0-1.0) in percent"@,
                kind: MetricKind::Gauge,
                label_names: Seq::empty(),
            },
        ]
    }

    /// Register this producer's descriptors.
    pub fn register(&self, registry: &mut Registry)
        requires
            old(registry).wf(),
        ensures
            final(registry).wf(),
            final(registry)@ == crate::registry::register_all_spec(
                old(registry)@,
                Self::descs_spec(),
            ),
    {
        let mut ds: Vec<Descriptor> = Vec::new();
        ds.push(
            Descriptor {
                name: "litemon_mem_used_percentage",
                help: "Memory used (0.0-1.0) in percent",
                kind: MetricKind::Gauge,
                label_names: Vec::new(),
            },
        );
        proof {
            assert(ds.deep_view() =~~= Self::descs_spec());
        }
        registry.register_many(ds);
    }

    /// One sampling pass: publish the used-memory fraction, or report
    /// the read failure and leave the published values untouched.
    pub fn collect(&self, input: Result<MemInfoReading, ReadError>) -> (r: (
        Vec<SeriesWrite>,
        Result<(), CollectionError>,
    ))
        ensures
            r.0.deep_view() == memory_writes_spec(input),
            (match r.1 {
                Ok(()) => memory_err_spec(input) is None,
                Err(e) => memory_err_spec(input) == Some(e@),
            }),
            forall|k: int| 0 <= k < r.0.deep_view().len() ==> write_wf(#[trigger] r.0.deep_view()[k]),
    {
        match input {
            Ok(m) => {
                let v = crate::memory::get_memory_used_percentage(m);
                let mut ws: Vec<SeriesWrite> = Vec::new();
                ws.push(
                    SeriesWrite {
                        family: "litemon_mem_used_percentage",
                        labels: Vec::new(),
                        op: WriteOp::SetTo(v),
                    },
                );
                proof {
                    assert(ws.deep_view() =~~= memory_writes_spec(input));
                }
                (ws, Ok(()))
            },
            Err(e) => {
                let ws: Vec<SeriesWrite> = Vec::new();
                proof {
                    assert(ws.deep_view() =~~= Seq::<WriteV>::empty());
                }
                (ws, Err(CollectionError::Read { context: e.context }))
            },
        }
    }
}

impl NodeInfoCollector {
    /// Remember the node information captured at startup.
    pub fn new(info: crate::info::NodeInfo) -> (r: NodeInfoCollector)
        ensures
            r.hostname@ == info.hostname@,
            r.arch@ == info.arch@,
    {
        NodeInfoCollector { hostname: info.hostname, arch: info.arch }
    }

    /// The series descriptors of this producer.
    pub open spec fn descs_spec() -> Seq<DescriptorV> {
        seq![
            DescriptorV {
                name: "litemon_node_info"@,
                help: "System information about the node"@,
                kind: MetricKind::Gauge,
                label_names: seq!["hostname"@, "arch"@],
            },
        ]
    }

    /// Register this producer's descriptors.
    pub fn register(&self, registry: &mut Registry)
        requires
            old(registry).wf(),
        ensures
            final(registry).wf(),
            final(registry)@ == crate::registry::register_all_spec(
                old(registry)@,
                Self::descs_spec(),
            ),
    {
        let mut names: Vec<&'static str> = Vec::new();
        names.push("hostname");
        names.push("arch");
        let mut ds: Vec<Descriptor> = Vec::new();
        ds.push(
            Descriptor {
                name: "litemon_node_info",
                help: "System information about the node",
                kind: MetricKind::Gauge,
                label_names: names,
            },
        );
        proof {
            assert(ds.deep_view() =~~= Self::descs_spec());
        }
        registry.register_many(ds);
    }

    /// One sampling pass: the constant `1` under this node's labels.
    pub fn collect(&self) -> (r: (Vec<SeriesWrite>, Result<(), CollectionError>))
        ensures
            r.0.deep_view() == node_info_writes_spec(*self),
            r.1 is Ok,
            forall|k: int| 0 <= k < r.0.deep_view().len() ==> write_wf(#[trigger] r.0.deep_view()[k]),
    {
        let mut labels: Vec<String> = Vec::new();
        labels.push(self.hostname.clone());
        labels.push(self.arch.clone());
        let mut ws: Vec<SeriesWrite> = Vec::new();
        ws.push(
            SeriesWrite {
                family: "litemon_node_info",
                labels,
                op: WriteOp::SetTo(MetricValue { num: 1, den: 1 }),
            },
        );
        proof {
            assert(ws.deep_view() =~~= node_info_writes_spec(*self));
        }
        (ws, Ok(()))
    }
}

impl NodeUptimeCollector {
    /// The series descriptors of this producer.
    pub open spec fn descs_spec() -> Seq<DescriptorV> {
        seq![
            DescriptorV {
                name: "litemon_node_uptime"@,
                help: "Uptime in seconds"@,
                kind: MetricKind::Gauge,
                label_names: Seq::empty(),
            },
        ]
    }

    /// Register this producer's descriptors.
    pub fn register(&self, registry: &mut Registry)
        requires
            old(registry).wf(),
        ensures
            final(registry).wf(),
            final(registry)@ == crate::registry::register_all_spec(
                old(registry)@,
                Self::descs_spec(),
            ),
    {
        let mut ds: Vec<Descriptor> = Vec::new();
        ds.push(
            Descriptor {
                name: "litemon_node_uptime",
                help: "Uptime in seconds",
                kind: MetricKind::Gauge,
                label_names: Vec::new(),
            },
        );
        proof {
            assert(ds.deep_view() =~~= Self::descs_spec());
        }
        registry.register_many(ds);
    }

    /// One sampling pass: publish the uptime, or report the read
    /// failure.
    pub fn collect(&self, input: Result<u64, ReadError>) -> (r: (
        Vec<SeriesWrite>,
        Result<(), CollectionError>,
    ))
        ensures
            r.0.deep_view() == node_uptime_writes_spec(input),
            (match r.1 {
                Ok(()) => node_uptime_err_spec(input) is None,
                Err(e) => node_uptime_err_spec(input) == Some(e@),
            }),
            forall|k: int| 0 <= k < r.0.deep_view().len() ==> write_wf(#[trigger] r.0.deep_view()[k]),
    {
        match input {
            Ok(secs) => {
                let mut ws: Vec<SeriesWrite> = Vec::new();
                ws.push(
                    SeriesWrite {
                        family: "litemon_node_uptime",
                        labels: Vec::new(),
                        op: WriteOp::SetTo(MetricValue { num: secs, den: 1 }),
                    },
                );
                proof {
                    assert(ws.deep_view() =~~= node_uptime_writes_spec(input));
                }
                (ws, Ok(()))
            },
            Err(e) => {
                let ws: Vec<SeriesWrite> = Vec::new();
                proof {
                    assert(ws.deep_view() =~~= Seq::<WriteV>::empty());
                }
                (ws, Err(CollectionError::Read { context: e.context }))
            },
        }
    }
}

impl PressureCollector {
    /// The series descriptors of this producer.
    pub open spec fn descs_spec() -> Seq<DescriptorV> {
        seq![
            DescriptorV {
                name: "litemon_io_pressure_total"@,
                help: "I/O pressure stall information (PSI) in microseconds"@,
                kind: MetricKind::Gauge,
                label_names: Seq::empty(),
            },
            DescriptorV {
                name: "litemon_cpu_pressure_total"@,
                help: "CPU pressure stall information (PSI) in microseconds"@,
                kind: MetricKind::Gauge,
                label_names: Seq::empty(),
            },
            DescriptorV {
                name: "litemon_memory_pressure_total"@,
                help: "Memory pressure stall information (PSI) in microseconds"@,
                kind: MetricKind::Gauge,
                label_names: Seq::empty(),
            },
        ]
    }

    /// Register this producer's descriptors.
    pub fn register(&self, registry: &mut Registry)
        requires
            old(registry).wf(),
        ensures
            final(registry).wf(),
            final(registry)@ == crate::registry::register_all_spec(
                old(registry)@,
                Self::descs_spec(),
            ),
    {
        let mut ds: Vec<Descriptor> = Vec::new();
        ds.push(
            Descriptor {
                name: "litemon_io_pressure_total",
                help: "I/O pressure stall information (PSI) in microseconds",
                kind: MetricKind::Gauge,
                label_names: Vec::new(),
            },
        );
        ds.push(
            Descriptor {
                name: "litemon_cpu_pressure_total",
                help: "CPU pressure stall information (PSI) in microseconds",
                kind: MetricKind::Gauge,
                label_names: Vec::new(),
            },
        );
        ds.push(
            Descriptor {
                name: "litemon_memory_pressure_total",
                help: "Memory pressure stall information (PSI) in microseconds",
                kind: MetricKind::Gauge,
                label_names: Vec::new(),
            },
        );
        proof {
            assert(ds.deep_view() =~~= Self::descs_spec());
        }
        registry.register_many(ds);
    }

    /// One sampling pass: publish the three stall totals, or report
    /// the first read failure (I/O, CPU, memory order) and publish
    /// nothing.
    pub fn collect(&self, input: PressureInput) -> (r: (
        Vec<SeriesWrite>,
        Result<(), CollectionError>,
    ))
        ensures
            r.0.deep_view() == pressure_writes_spec(input),
            (match r.1 {
                Ok(()) => pressure_err_spec(input) is None,
                Err(e) => pressure_err_spec(input) == Some(e@),
            }),
            forall|k: int| 0 <= k < r.0.deep_view().len() ==> write_wf(#[trigger] r.0.deep_view()[k]),
    {
        let PressureInput { io, cpu, mem } = input;
        match (io, cpu, mem) {
            (Ok(io), Ok(cpu), Ok(mem)) => {
                let mut ws: Vec<SeriesWrite> = Vec::new();
                ws.push(
                    SeriesWrite {
                        family: "litemon_io_pressure_total",
                        labels: Vec::new(),
                        op: WriteOp::SetTo(MetricValue { num: io.total, den: 1 }),
                    },
                );
                ws.push(
                    SeriesWrite {
                        family: "litemon_cpu_pressure_total",
                        labels: Vec::new(),
                        op: WriteOp::SetTo(MetricValue { num: cpu.total, den: 1 }),
                    },
                );
                ws.push(
                    SeriesWrite {
                        family: "litemon_memory_pressure_total",
                        labels: Vec::new(),
                        op: WriteOp::SetTo(MetricValue { num: mem.total, den: 1 }),
                    },
                );
                proof {
                    assert(ws.deep_view() =~~= pressure_writes_spec(input));
                }
                (ws, Ok(()))
            },
            (Err(e), _, _) => {
                let ws: Vec<SeriesWrite> = Vec::new();
                proof {
                    assert(ws.deep_view() =~~= Seq::<WriteV>::empty());
                }
                (ws, Err(CollectionError::Read { context: e.context }))
            },
            (Ok(_), Err(e), _) => {
                let ws: Vec<SeriesWrite> = Vec::new();
                proof {
                    assert(ws.deep_view() =~~= Seq::<WriteV>::empty());
                }
                (ws, Err(CollectionError::Read { context: e.context }))
            },
            (Ok(_), Ok(_), Err(e)) => {
                let ws: Vec<SeriesWrite> = Vec::new();
                proof {
                    assert(ws.deep_view() =~~= Seq::<WriteV>::empty());
                }
                (ws, Err(CollectionError::Read { context: e.context }))
            },
        }
    }
}

/// Collector for CPU metrics: load averages and usage ratios derived
/// from the previous pass's snapshot.
#[derive(PartialEq, Eq, Debug)]
pub struct CpuStatsCollector {
    /// The snapshot the next pass diffs against.  Replaced on every
    /// successful stat reading, even when another producer fails.
    pub last_cpu_snapshot: CpuUsage,
    /// Whether the load-average families are registered and written.
    pub load_avg_enabled: bool,
}

/// The per-core tick summaries of one raw reading.
pub open spec fn times_of_raw(raw: Seq<RawCpuTicks>) -> Seq<crate::cpu::CpuTime> {
    raw.map_values(|r: RawCpuTicks| cpu_time_of(r))
}

/// The load-average writes (hundredths over 100), when enabled.
pub open spec fn loadavg_writes_spec(enabled: bool, l: LoadAverages) -> Seq<WriteV> {
    if enabled {
        seq![
            set_plain("litemon_load_avg_1m"@, MetricValue { num: l.one, den: 100 }),
            set_plain("litemon_load_avg_5m"@, MetricValue { num: l.five, den: 100 }),
            set_plain("litemon_load_avg_15m"@, MetricValue { num: l.fifteen, den: 100 }),
        ]
    } else {
        Seq::empty()
    }
}

/// The per-core usage writes: one per core present in both snapshots,
/// labelled by the core index in decimal.
pub open spec fn per_core_writes_spec(
    new_times: Seq<crate::cpu::CpuTime>,
    old_times: Seq<crate::cpu::CpuTime>,
) -> Seq<WriteV> {
    let m = if new_times.len() <= old_times.len() {
        new_times.len()
    } else {
        old_times.len()
    };
    Seq::new(
        m,
        |i: int|
            WriteV {
                family: "litemon_cpu_usage_per_core"@,
                labels: seq![dec_digits(i)],
                op: WriteOp::SetTo(usage_ratio_spec(new_times[i], old_times[i])),
            },
    )
}

/// The writes of one CPU pass: the load averages (when enabled and
/// read), then — when the stat reading succeeded — the overall usage
/// ratio against the previous snapshot and one ratio per core.
pub open spec fn cpu_writes_spec(p: CpuStatsCollector, input: CpuInput) -> Seq<WriteV> {
    match input.load {
        Err(_) => Seq::empty(),
        Ok(l) => {
            let lw = loadavg_writes_spec(p.load_avg_enabled, l);
            match input.stat {
                Err(_) => lw,
                Ok(raw) => {
                    let new_times = times_of_raw(raw@);
                    lw + seq![
                        set_plain(
                            "litemon_cpu_usage_overall"@,
                            usage_ratio_spec(
                                sum_times(new_times),
                                p.last_cpu_snapshot.total_ticks,
                            ),
                        ),
                    ] + per_core_writes_spec(new_times, p.last_cpu_snapshot.per_core_ticks@)
                },
            }
        },
    }
}

/// The error of one CPU pass: a failed load-average read wins, then a
/// failed stat read.
pub open spec fn cpu_err_spec(input: CpuInput) -> Option<CollectionErrorV> {
    match input.load {
        Err(e) => Some(CollectionErrorV::Read { context: e.context@ }),
        Ok(_) => match input.stat {
            Err(e) => Some(CollectionErrorV::Read { context: e.context@ }),
            Ok(_) => None,
        },
    }
}

/// How one CPU pass changes the producer's state: a successful stat
/// reading becomes the stored snapshot; any failure leaves it as it
/// was.
pub open spec fn cpu_post(old_p: CpuStatsCollector, new_p: CpuStatsCollector, input: CpuInput)
    -> bool {
    &&& new_p.load_avg_enabled == old_p.load_avg_enabled
    &&& (match (input.load, input.stat) {
        (Ok(_), Ok(raw)) => new_p.last_cpu_snapshot.summarises(raw@),
        _ => new_p.last_cpu_snapshot == old_p.last_cpu_snapshot,
    })
}

impl CpuStatsCollector {
    /// Build the producer from its options and the initial snapshot
    /// taken at setup time.  The load averages are published only when
    /// the `load_avg_enabled` option is the string `true`.
    pub fn new(options: &Vec<(String, String)>, initial_snapshot: &Vec<RawCpuTicks>) -> (r:
        CpuStatsCollector)
        ensures
            r.last_cpu_snapshot.summarises(initial_snapshot@),
            r.load_avg_enabled == (opts_get_spec(options.deep_view(), "load_avg_enabled"@)
                == Some("true"@)),
    {
        let enabled = match opts_get(options, "load_avg_enabled") {
            Some(v) => crate::registry::str_eq(v.as_str(), "true"),
            None => false,
        };
        CpuStatsCollector {
            last_cpu_snapshot: CpuUsage::from_raw(initial_snapshot),
            load_avg_enabled: enabled,
        }
    }

    /// The series descriptors of this producer: the load-average
    /// families only when enabled, always the usage families.
    pub open spec fn descs_spec(load_avg_enabled: bool) -> Seq<DescriptorV> {
        let usage = seq![
            DescriptorV {
                name: "litemon_cpu_usage_overall"@,
                help: "Overall CPU usage percentage (0.0-1.0)"@,
                kind: MetricKind::Gauge,
                label_names: Seq::empty(),
            },
            DescriptorV {
                name: "litemon_cpu_usage_per_core"@,
                help: "Per-core CPU usage percentage (0.0-1.0)"@,
                kind: MetricKind::Gauge,
                label_names: seq!["core"@],
            },
        ];
        if load_avg_enabled {
            seq![
                DescriptorV {
                    name: "litemon_load_avg_1m"@,
                    help: "Load average over 1 minute"@,
                    kind: MetricKind::Gauge,
                    label_names: Seq::empty(),
                },
                DescriptorV {
                    name: "litemon_load_avg_5m"@,
                    help: "Load average over 5 minutes"@,
                    kind: MetricKind::Gauge,
                    label_names: Seq::empty(),
                },
                DescriptorV {
                    name: "litemon_load_avg_15m"@,
                    help: "Load average over 15 minutes"@,
                    kind: MetricKind::Gauge,
                    label_names: Seq::empty(),
                },
            ] + usage
        } else {
            usage
        }
    }

    /// Register this producer's descriptors.
    pub fn register(&self, registry: &mut Registry)
        requires
            old(registry).wf(),
        ensures
            final(registry).wf(),
            final(registry)@ == crate::registry::register_all_spec(
                old(registry)@,
                Self::descs_spec(self.load_avg_enabled),
            ),
    {
        let mut ds: Vec<Descriptor> = Vec::new();
        if self.load_avg_enabled {
            ds.push(
                Descriptor {
                    name: "litemon_load_avg_1m",
                    help: "Load average over 1 minute",
                    kind: MetricKind::Gauge,
                    label_names: Vec::new(),
                },
            );
            ds.push(
                Descriptor {
                    name: "litemon_load_avg_5m",
                    help: "Load average over 5 minutes",
                    kind: MetricKind::Gauge,
                    label_names: Vec::new(),
                },
            );
            ds.push(
                Descriptor {
                    name: "litemon_load_avg_15m",
                    help: "Load average over 15 minutes",
                    kind: MetricKind::Gauge,
                    label_names: Vec::new(),
                },
            );
        }
        ds.push(
            Descriptor {
                name: "litemon_cpu_usage_overall",
                help: "Overall CPU usage percentage (0.0-1.0)",
                kind: MetricKind::Gauge,
                label_names: Vec::new(),
            },
        );
        let mut core_names: Vec<&'static str> = Vec::new();
        core_names.push("core");
        ds.push(
            Descriptor {
                name: "litemon_cpu_usage_per_core",
                help: "Per-core CPU usage percentage (0.0-1.0)",
                kind: MetricKind::Gauge,
                label_names: core_names,
            },
        );
        proof {
            assert(ds.deep_view() =~~= Self::descs_spec(self.load_avg_enabled));
        }
        registry.register_many(ds);
    }

    /// One sampling pass.  A failed load-average read aborts the pass
    /// before anything is written; a failed stat read still leaves the
    /// load-average writes in place.  On success the stored snapshot
    /// is replaced, so the next pass diffs against this reading.
    pub fn collect(&mut self, input: CpuInput) -> (r: (
        Vec<SeriesWrite>,
        Result<(), CollectionError>,
    ))
        ensures
            r.0.deep_view() == cpu_writes_spec(*old(self), input),
            (match r.1 {
                Ok(()) => cpu_err_spec(input) is None,
                Err(e) => cpu_err_spec(input) == Some(e@),
            }),
            cpu_post(*old(self), *final(self), input),
            forall|k: int| 0 <= k < r.0.deep_view().len() ==> write_wf(#[trigger] r.0.deep_view()[k]),
    {
        let CpuInput { load, stat } = input;
        match load {
            Err(e) => {
                let ws: Vec<SeriesWrite> = Vec::new();
                proof {
                    assert(ws.deep_view() =~~= Seq::<WriteV>::empty());
                }
                (ws, Err(CollectionError::Read { context: e.context }))
            },
            Ok(l) => {
                let mut ws: Vec<SeriesWrite> = Vec::new();
                if self.load_avg_enabled {
                    ws.push(
                        SeriesWrite {
                            family: "litemon_load_avg_1m",
                            labels: Vec::new(),
                            op: WriteOp::SetTo(MetricValue { num: l.one, den: 100 }),
                        },
                    );
                    ws.push(
                        SeriesWrite {
                            family: "litemon_load_avg_5m",
                            labels: Vec::new(),
                            op: WriteOp::SetTo(MetricValue { num: l.five, den: 100 }),
                        },
                    );
                    ws.push(
                        SeriesWrite {
                            family: "litemon_load_avg_15m",
                            labels: Vec::new(),
                            op: WriteOp::SetTo(MetricValue { num: l.fifteen, den: 100 }),
                        },
                    );
                }
                proof {
                    assert(ws.deep_view() =~~= loadavg_writes_spec(self.load_avg_enabled, l));
                }
                let ghost lw = ws.deep_view();
                match stat {
                    Err(e) => (ws, Err(CollectionError::Read { context: e.context })),
                    Ok(raw) => {
                        let new_snapshot = CpuUsage::from_raw(&raw);
                        let overall = new_snapshot.percentage_all_cores(&self.last_cpu_snapshot);
                        ws.push(
                            SeriesWrite {
                                family: "litemon_cpu_usage_overall",
                                labels: Vec::new(),
                                op: WriteOp::SetTo(overall),
                            },
                        );
                        proof {
                            assert(new_snapshot.per_core_ticks@ =~= times_of_raw(raw@));
                            assert(ws.deep_view() =~~= lw + seq![
                                set_plain(
                                    "litemon_cpu_usage_overall"@,
                                    usage_ratio_spec(
                                        sum_times(times_of_raw(raw@)),
                                        self.last_cpu_snapshot.total_ticks,
                                    ),
                                ),
                            ]);
                        }
                        let ghost base = ws.deep_view();
                        let per_core = new_snapshot.percentage_per_core(&self.last_cpu_snapshot);
                        let ghost pc_spec = per_core_writes_spec(
                            times_of_raw(raw@),
                            self.last_cpu_snapshot.per_core_ticks@,
                        );
                        let m = per_core.len();
                        proof {
                            assert(pc_spec.len() == m);
                        }
                        let mut j: usize = 0;
                        while j < m
                            invariant
                                0 <= j <= m,
                                m == per_core@.len(),
                                m == pc_spec.len(),
                                forall|k: int|
                                    0 <= k < m ==> (#[trigger] pc_spec[k]) == (WriteV {
                                        family: "litemon_cpu_usage_per_core"@,
                                        labels: seq![dec_digits(k)],
                                        op: WriteOp::SetTo(per_core@[k]),
                                    }),
                                forall|k: int|
                                    0 <= k < m ==> (#[trigger] per_core@[k]).den >= 1,
                                ws.deep_view() == base + pc_spec.take(j as int),
                                forall|k: int|
                                    0 <= k < ws.deep_view().len() ==> write_wf(
                                        #[trigger] ws.deep_view()[k],
                                    ),
                            decreases m - j,
                        {
                            let core_label = u64_to_dec(j as u64);
                            let mut labels: Vec<String> = Vec::new();
                            labels.push(core_label);
                            let ghost before = ws.deep_view();
                            ws.push(
                                SeriesWrite {
                                    family: "litemon_cpu_usage_per_core",
                                    labels,
                                    op: WriteOp::SetTo(per_core[j]),
                                },
                            );
                            proof {
                                assert(ws.deep_view() =~~= before.push(pc_spec[j as int]));
                                assert(base + pc_spec.take(j + 1) =~~= (base + pc_spec.take(
                                    j as int,
                                )).push(pc_spec[j as int]));
                            }
                            j += 1;
                        }
                        proof {
                            assert(pc_spec.take(m as int) =~= pc_spec);
                        }
                        self.last_cpu_snapshot = new_snapshot;
                        (ws, Ok(()))
                    },
                }
            },
        }
    }
}

/// Collector for service-unit activation states.
#[derive(PartialEq, Eq, Debug)]
pub struct SystemdUnitStateCollector {
    /// Names of the tracked units, suffix included.
    pub units: Vec<String>,
    /// The lazily grown unit-to-object-path cache.
    pub cache: UnitCache,
}

/// The write clearing one unit's series for one state.
pub open spec fn zero_write(unit: Seq<char>, s: ActiveState) -> WriteV {
    WriteV {
        family: "litemon_systemd_unit_state"@,
        labels: seq![unit, state_name(s)],
        op: WriteOp::SetTo(MetricValue { num: 0, den: 1 }),
    }
}

/// The write marking one unit's reported state.
pub open spec fn one_write(unit: Seq<char>, st: ActiveState) -> WriteV {
    WriteV {
        family: "litemon_systemd_unit_state"@,
        labels: seq![unit, state_name(st)],
        op: WriteOp::SetTo(MetricValue { num: 1, den: 1 }),
    }
}

/// The one-hot writes for one unit in one state: a zero for every
/// known state, then a one for the reported state.
pub open spec fn one_hot_writes(unit: Seq<char>, st: ActiveState) -> Seq<WriteV> {
    all_states_spec().map_values(|s: ActiveState| zero_write(unit, s)).push(one_write(unit, st))
}

/// The writes of one unit-state pass: one-hot writes per unit whose
/// state was read and recognised; failed or unknown readings are
/// skipped (they fail no pass).
pub open spec fn systemd_writes_spec(inputs: Seq<UnitStateReading>) -> Seq<WriteV>
    decreases inputs.len(),
{
    if inputs.len() == 0 {
        Seq::empty()
    } else {
        let rest = systemd_writes_spec(inputs.skip(1));
        match inputs[0].state {
            Err(_) => rest,
            Ok(s) => match parse_state_spec(s@) {
                None => rest,
                Some(st) => one_hot_writes(inputs[0].unit@, st) + rest,
            },
        }
    }
}

impl SystemdUnitStateCollector {
    /// Build the producer from its options: the tracked units are the
    /// comma-separated `units` option, or none when the key is absent.
    /// The unit cache starts empty.
    pub fn new(options: &Vec<(String, String)>) -> (r: SystemdUnitStateCollector)
        ensures
            r.units.deep_view() == (match opts_get_spec(options.deep_view(), "units"@) {
                None => Seq::<Seq<char>>::empty(),
                Some(v) => split_trim_spec(v),
            }),
            r.cache@ == Seq::<(Seq<char>, Seq<char>)>::empty(),
            r.cache.wf(),
    {
        let units = match opts_get(options, "units") {
            None => {
                let v: Vec<String> = Vec::new();
                proof {
                    assert(v.deep_view() =~~= Seq::<Seq<char>>::empty());
                }
                v
            },
            Some(s) => split_and_trim(s.as_str()),
        };
        SystemdUnitStateCollector { units, cache: UnitCache::new() }
    }

    /// The series descriptors of this producer.
    pub open spec fn descs_spec() -> Seq<DescriptorV> {
        seq![
            DescriptorV {
                name: "litemon_systemd_unit_state"@,
                help: "Systemd unit state (1 for current state, 0 otherwise)"@,
                kind: MetricKind::Gauge,
                label_names: seq!["unit"@, "state"@],
            },
        ]
    }

    /// Register this producer's descriptors.
    pub fn register(&self, registry: &mut Registry)
        requires
            old(registry).wf(),
        ensures
            final(registry).wf(),
            final(registry)@ == crate::registry::register_all_spec(
                old(registry)@,
                Self::descs_spec(),
            ),
    {
        let mut names: Vec<&'static str> = Vec::new();
        names.push("unit");
        names.push("state");
        let mut ds: Vec<Descriptor> = Vec::new();
        ds.push(
            Descriptor {
                name: "litemon_systemd_unit_state",
                help: "Systemd unit state (1 for current state, 0 otherwise)",
                kind: MetricKind::Gauge,
                label_names: names,
            },
        );
        proof {
            assert(ds.deep_view() =~~= Self::descs_spec());
        }
        registry.register_many(ds);
    }

    /// One sampling pass: for every unit whose state was read and
    /// recognised, set all its state series to 0 and the reported one
    /// to 1.  A unit whose state could not be read or parsed is
    /// skipped; it never fails the pass.
    pub fn collect(&self, inputs: Vec<UnitStateReading>) -> (r: (
        Vec<SeriesWrite>,
        Result<(), CollectionError>,
    ))
        ensures
            r.0.deep_view() == systemd_writes_spec(inputs@),
            r.1 is Ok,
            forall|k: int| 0 <= k < r.0.deep_view().len() ==> write_wf(#[trigger] r.0.deep_view()[k]),
    {
        let ghost all = inputs@;
        let n = inputs.len();
        let mut ws: Vec<SeriesWrite> = Vec::new();
        proof {
            assert(all.skip(0) =~= all);
            assert(ws.deep_view() =~~= Seq::<WriteV>::empty());
            assert(ws.deep_view() + systemd_writes_spec(all) =~~= systemd_writes_spec(all));
        }
        let mut i: usize = 0;
        while i < n
            invariant
                0 <= i <= n,
                n == inputs@.len(),
                all == inputs@,
                systemd_writes_spec(all) == ws.deep_view() + systemd_writes_spec(
                    all.skip(i as int),
                ),
                forall|k: int|
                    0 <= k < ws.deep_view().len() ==> write_wf(#[trigger] ws.deep_view()[k]),
            decreases n - i,
        {
            proof {
                assert(all.skip(i as int)[0] == all[i as int]);
                assert(all.skip(i as int).skip(1) =~= all.skip(i + 1));
            }
            let entry = &inputs[i];
            match &entry.state {
                Err(_) => (),
                Ok(s) => {
                    let parsed = ActiveState::from_str(s.as_str());
                    match parsed {
                        None => (),
                        Some(st) => {
                            let ghost unit_v = entry.unit@;
                            let ghost base = ws.deep_view();
                            let ghost zeros = all_states_spec().map_values(
                                |x: ActiveState|
                                    WriteV {
                                        family: "litemon_systemd_unit_state"@,
                                        labels: seq![unit_v, state_name(x)],
                                        op: WriteOp::SetTo(MetricValue { num: 0, den: 1 }),
                                    },
                            );
                            let state_names = ActiveState::all_states();
                            proof {
                                assert(all_states_spec().len() == 8);
                                assert(state_names@.len() == state_names.deep_view().len());
                            }
                            let mut j: usize = 0;
                            while j < state_names.len()
                                invariant
                                    0 <= j <= state_names@.len(),
                                    state_names.deep_view() == all_states_spec().map_values(
                                        |x: ActiveState| state_name(x),
                                    ),
                                    state_names@.len() == 8,
                                    zeros.len() == 8,
                                    unit_v == entry.unit@,
                                    forall|k: int|
                                        0 <= k < 8 ==> (#[trigger] zeros[k]) == (WriteV {
                                            family: "litemon_systemd_unit_state"@,
                                            labels: seq![
                                                unit_v,
                                                state_name(all_states_spec()[k]),
                                            ],
                                            op: WriteOp::SetTo(MetricValue { num: 0, den: 1 }),
                                        }),
                                    ws.deep_view() == base + zeros.take(j as int),
                                    forall|k: int|
                                        0 <= k < ws.deep_view().len() ==> write_wf(
                                            #[trigger] ws.deep_view()[k],
                                        ),
                                decreases state_names@.len() - j,
                            {
                                let mut labels: Vec<String> = Vec::new();
                                labels.push(entry.unit.clone());
                                labels.push(state_names[j].to_owned());
                                let ghost before = ws.deep_view();
                                ws.push(
                                    SeriesWrite {
                                        family: "litemon_systemd_unit_state",
                                        labels,
                                        op: WriteOp::SetTo(MetricValue { num: 0, den: 1 }),
                                    },
                                );
                                proof {
                                    assert(state_names.deep_view()[j as int] == state_name(
                                        all_states_spec()[j as int],
                                    ));
                                    assert(state_names@[j as int]@ == state_names.deep_view()[
                                        j as int
                                    ]);
                                    assert(ws.deep_view() =~~= before.push(zeros[j as int]));
                                    assert(base + zeros.take(j + 1) =~~= (base + zeros.take(
                                        j as int,
                                    )).push(zeros[j as int]));
                                }
                                j += 1;
                            }
                            proof {
                                assert(zeros.take(8) =~= zeros);
                            }
                            let mut labels: Vec<String> = Vec::new();
                            labels.push(entry.unit.clone());
                            labels.push(st.as_str().to_owned());
                            let ghost before = ws.deep_view();
                            ws.push(
                                SeriesWrite {
                                    family: "litemon_systemd_unit_state",
                                    labels,
                                    op: WriteOp::SetTo(MetricValue { num: 1, den: 1 }),
                                },
                            );
                            proof {
                                assert(ws.deep_view() =~~= before.push(
                                    WriteV {
                                        family: "litemon_systemd_unit_state"@,
                                        labels: seq![unit_v, state_name(st)],
                                        op: WriteOp::SetTo(MetricValue { num: 1, den: 1 }),
                                    },
                                ));
                                assert(ws.deep_view() =~~= base + one_hot_writes(unit_v, st));
                                assert(base + one_hot_writes(unit_v, st) + systemd_writes_spec(
                                    all.skip(i + 1),
                                ) =~~= base + (one_hot_writes(unit_v, st) + systemd_writes_spec(
                                    all.skip(i + 1),
                                )));
                            }
                        },
                    }
                },
            }
            i += 1;
        }
        proof {
            assert(all.skip(n as int) =~= Seq::<UnitStateReading>::empty());
        }
        (ws, Ok(()))
    }
}

/// Collector for network interface metrics.
#[derive(PartialEq, Eq, Debug)]
pub struct NetworkStatsCollector {
    /// Names of the tracked interfaces.
    pub interfaces: Vec<String>,
}

/// The four counter writes for one tracked interface's raw totals.
pub open spec fn net_if_writes(name: Seq<char>, st: InterfaceStatsV) -> Seq<WriteV> {
    seq![
        WriteV {
            family: "litemon_net_bytes_received"@,
            labels: seq![name],
            op: WriteOp::CounterTo(st.recv_bytes),
        },
        WriteV {
            family: "litemon_net_errors_received"@,
            labels: seq![name],
            op: WriteOp::CounterTo(st.recv_errors),
        },
        WriteV {
            family: "litemon_net_bytes_sent"@,
            labels: seq![name],
            op: WriteOp::CounterTo(st.sent_bytes),
        },
        WriteV {
            family: "litemon_net_errors_sent"@,
            labels: seq![name],
            op: WriteOp::CounterTo(st.sent_errors),
        },
    ]
}

/// The writes of one network pass: four counter writes per configured
/// interface present in the reading; configured interfaces absent from
/// the reading are skipped.
pub open spec fn net_writes_spec(interfaces: Seq<Seq<char>>, stats: Seq<InterfaceStatsV>)
    -> Seq<WriteV>
    decreases interfaces.len(),
{
    if interfaces.len() == 0 {
        Seq::empty()
    } else {
        let rest = net_writes_spec(interfaces.skip(1), stats);
        match find_interface_spec(stats, interfaces[0]) {
            None => rest,
            Some(st) => net_if_writes(interfaces[0], st) + rest,
        }
    }
}

impl NetworkStatsCollector {
    /// Build the producer from its options: the tracked interfaces
    /// are the comma-separated `interfaces` option, defaulting to the
    /// single interface `eth0` when the key is absent.
    pub fn new(options: &Vec<(String, String)>) -> (r: NetworkStatsCollector)
        ensures
            r.interfaces.deep_view() == (match opts_get_spec(options.deep_view(), "interfaces"@) {
                None => seq!["eth0"@],
                Some(v) => split_trim_spec(v),
            }),
    {
        let interfaces = match opts_get(options, "interfaces") {
            None => {
                let mut v: Vec<String> = Vec::new();
                v.push("eth0".to_owned());
                proof {
                    assert(v.deep_view() =~~= seq!["eth0"@]);
                }
                v
            },
            Some(s) => split_and_trim(s.as_str()),
        };
        NetworkStatsCollector { interfaces }
    }

    /// The series descriptors of this producer.
    pub open spec fn descs_spec() -> Seq<DescriptorV> {
        seq![
            DescriptorV {
                name: "litemon_net_bytes_received"@,
                help: "Network bytes received"@,
                kind: MetricKind::Counter,
                label_names: seq!["interface"@],
            },
            DescriptorV {
                name: "litemon_net_errors_received"@,
                help: "Network errors received"@,
                kind: MetricKind::Counter,
                label_names: seq!["interface"@],
            },
            DescriptorV {
                name: "litemon_net_bytes_sent"@,
                help: "Network bytes sent"@,
                kind: MetricKind::Counter,
                label_names: seq!["interface"@],
            },
            DescriptorV {
                name: "litemon_net_errors_sent"@,
                help: "Network errors sent"@,
                kind: MetricKind::Counter,
                label_names: seq!["interface"@],
            },
        ]
    }

    /// Register this producer's descriptors.
    pub fn register(&self, registry: &mut Registry)
        requires
            old(registry).wf(),
        ensures
            final(registry).wf(),
            final(registry)@ == crate::registry::register_all_spec(
                old(registry)@,
                Self::descs_spec(),
            ),
    {
        let mut ds: Vec<Descriptor> = Vec::new();
        let mut n1: Vec<&'static str> = Vec::new();
        n1.push("interface");
        ds.push(
            Descriptor {
                name: "litemon_net_bytes_received",
                help: "Network bytes received",
                kind: MetricKind::Counter,
                label_names: n1,
            },
        );
        let mut n2: Vec<&'static str> = Vec::new();
        n2.push("interface");
        ds.push(
            Descriptor {
                name: "litemon_net_errors_received",
                help: "Network errors received",
                kind: MetricKind::Counter,
                label_names: n2,
            },
        );
        let mut n3: Vec<&'static str> = Vec::new();
        n3.push("interface");
        ds.push(
            Descriptor {
                name: "litemon_net_bytes_sent",
                help: "Network bytes sent",
                kind: MetricKind::Counter,
                label_names: n3,
            },
        );
        let mut n4: Vec<&'static str> = Vec::new();
        n4.push("interface");
        ds.push(
            Descriptor {
                name: "litemon_net_errors_sent",
                help: "Network errors sent",
                kind: MetricKind::Counter,
                label_names: n4,
            },
        );
        proof {
            assert(ds.deep_view() =~~= Self::descs_spec());
        }
        registry.register_many(ds);
    }

    /// One sampling pass: raise each tracked interface's counters
    /// toward its raw totals (never backwards — see the counter-reset
    /// policy), or report the read failure and write nothing.
    pub fn collect(&self, input: Result<NetworkStats, ReadError>) -> (r: (
        Vec<SeriesWrite>,
        Result<(), CollectionError>,
    ))
        ensures
            r.0.deep_view() == (match input {
                Ok(stats) => net_writes_spec(
                    self.interfaces.deep_view(),
                    stats.interfaces.deep_view(),
                ),
                Err(_) => Seq::<WriteV>::empty(),
            }),
            (match r.1 {
                Ok(()) => input is Ok,
                Err(e) => (match input {
                    Err(re) => e@ == (CollectionErrorV::Read { context: re.context@ }),
                    Ok(_) => false,
                }),
            }),
            forall|k: int| 0 <= k < r.0.deep_view().len() ==> write_wf(#[trigger] r.0.deep_view()[k]),
    {
        match input {
            Err(e) => {
                let ws: Vec<SeriesWrite> = Vec::new();
                proof {
                    assert(ws.deep_view() =~~= Seq::<WriteV>::empty());
                }
                (ws, Err(CollectionError::Read { context: e.context }))
            },
            Ok(stats) => {
                let ghost ifs = self.interfaces.deep_view();
                let ghost stv = stats.interfaces.deep_view();
                let n = self.interfaces.len();
                let mut ws: Vec<SeriesWrite> = Vec::new();
                proof {
                    assert(ifs.skip(0) =~= ifs);
                    assert(ws.deep_view() =~~= Seq::<WriteV>::empty());
                    assert(ws.deep_view() + net_writes_spec(ifs, stv) =~~= net_writes_spec(
                        ifs,
                        stv,
                    ));
                }
                let mut i: usize = 0;
                while i < n
                    invariant
                        0 <= i <= n,
                        n == self.interfaces@.len(),
                        ifs == self.interfaces.deep_view(),
                        stv == stats.interfaces.deep_view(),
                        net_writes_spec(ifs, stv) == ws.deep_view() + net_writes_spec(
                            ifs.skip(i as int),
                            stv,
                        ),
                        forall|k: int|
                            0 <= k < ws.deep_view().len() ==> write_wf(
                                #[trigger] ws.deep_view()[k],
                            ),
                    decreases n - i,
                {
                    proof {
                        assert(ifs.skip(i as int)[0] == ifs[i as int]);
                        assert(ifs.skip(i as int).skip(1) =~= ifs.skip(i + 1));
                    }
                    let name = &self.interfaces[i];
                    let found = stats.find(name.as_str());
                    match found {
                        None => (),
                        Some(st) => {
                            let ghost base = ws.deep_view();
                            let mut l1: Vec<String> = Vec::new();
                            l1.push(name.clone());
                            ws.push(
                                SeriesWrite {
                                    family: "litemon_net_bytes_received",
                                    labels: l1,
                                    op: WriteOp::CounterTo(st.recv_bytes),
                                },
                            );
                            let mut l2: Vec<String> = Vec::new();
                            l2.push(name.clone());
                            ws.push(
                                SeriesWrite {
                                    family: "litemon_net_errors_received",
                                    labels: l2,
                                    op: WriteOp::CounterTo(st.recv_errors),
                                },
                            );
                            let mut l3: Vec<String> = Vec::new();
                            l3.push(name.clone());
                            ws.push(
                                SeriesWrite {
                                    family: "litemon_net_bytes_sent",
                                    labels: l3,
                                    op: WriteOp::CounterTo(st.sent_bytes),
                                },
                            );
                            let mut l4: Vec<String> = Vec::new();
                            l4.push(name.clone());
                            ws.push(
                                SeriesWrite {
                                    family: "litemon_net_errors_sent",
                                    labels: l4,
                                    op: WriteOp::CounterTo(st.sent_errors),
                                },
                            );
                            proof {
                                assert(ws.deep_view() =~~= base + net_if_writes(
                                    ifs[i as int],
                                    st@,
                                ));
                                assert(base + net_if_writes(ifs[i as int], st@)
                                    + net_writes_spec(ifs.skip(i + 1), stv) =~~= base + (
                                net_if_writes(ifs[i as int], st@) + net_writes_spec(
                                    ifs.skip(i + 1),
                                    stv,
                                )));
                            }
                        },
                    }
                    i += 1;
                }
                proof {
                    assert(ifs.skip(n as int) =~= Seq::<Seq<char>>::empty());
                }
                (ws, Ok(()))
            },
        }
    }
}

/// Collector for filesystem usage metrics.
#[derive(PartialEq, Eq, Debug)]
pub struct FilesystemStatsCollector {
    /// Mount points to report.
    pub mountpoints: Vec<String>,
}

/// The gauge write for one mount point's usage.
pub open spec fn fs_write_one(u: FilesystemUsage) -> WriteV {
    WriteV {
        family: "litemon_fs_usage_ratio"@,
        labels: seq![u.mount_point@, u.device@, u.fs_type@],
        op: WriteOp::SetTo(norm_value(u.usage_ratio)),
    }
}

/// The writes of one filesystem pass: one usage gauge per mount point
/// in order, stopping at the first failed reading (earlier writes
/// stay).
pub open spec fn fs_writes_spec(inputs: Seq<MountUsageReading>) -> Seq<WriteV>
    decreases inputs.len(),
{
    if inputs.len() == 0 {
        Seq::empty()
    } else {
        match inputs[0].usage {
            Ok(u) => seq![fs_write_one(u)] + fs_writes_spec(inputs.skip(1)),
            Err(_) => Seq::empty(),
        }
    }
}

/// The error of one filesystem pass: the first failed mount point's,
/// tagged with that mount point.
pub open spec fn fs_err_spec(inputs: Seq<MountUsageReading>) -> Option<CollectionErrorV>
    decreases inputs.len(),
{
    if inputs.len() == 0 {
        None
    } else {
        match inputs[0].usage {
            Ok(_) => fs_err_spec(inputs.skip(1)),
            Err(e) => Some(
                CollectionErrorV::Filesystem {
                    mountpoint: inputs[0].mountpoint@,
                    context: e.context@,
                },
            ),
        }
    }
}

impl FilesystemStatsCollector {
    /// Build the producer from its options: the reported mount points
    /// are the comma-separated `mountpoints` option, defaulting to the
    /// root filesystem when the key is absent.
    pub fn new(options: &Vec<(String, String)>) -> (r: FilesystemStatsCollector)
        ensures
            r.mountpoints.deep_view() == (match opts_get_spec(
                options.deep_view(),
                "mountpoints"@,
            ) {
                None => seq!["/"@],
                Some(v) => split_trim_spec(v),
            }),
    {
        let mountpoints = match opts_get(options, "mountpoints") {
            None => {
                let mut v: Vec<String> = Vec::new();
                v.push("/".to_owned());
                proof {
                    assert(v.deep_view() =~~= seq!["/"@]);
                }
                v
            },
            Some(s) => split_and_trim(s.as_str()),
        };
        FilesystemStatsCollector { mountpoints }
    }

    /// The series descriptors of this producer.
    pub open spec fn descs_spec() -> Seq<DescriptorV> {
        seq![
            DescriptorV {
                name: "litemon_fs_usage_ratio"@,
                help: "Filesystem usage ratio (0.0-1.0)"@,
                kind: MetricKind::Gauge,
                label_names: seq!["mountpoint"@, "device"@, "fstype"@],
            },
        ]
    }

    /// Register this producer's descriptors.
    pub fn register(&self, registry: &mut Registry)
        requires
            old(registry).wf(),
        ensures
            final(registry).wf(),
            final(registry)@ == crate::registry::register_all_spec(
                old(registry)@,
                Self::descs_spec(),
            ),
    {
        let mut names: Vec<&'static str> = Vec::new();
        names.push("mountpoint");
        names.push("device");
        names.push("fstype");
        let mut ds: Vec<Descriptor> = Vec::new();
        ds.push(
            Descriptor {
                name: "litemon_fs_usage_ratio",
                help: "Filesystem usage ratio (0.0-1.0)",
                kind: MetricKind::Gauge,
                label_names: names,
            },
        );
        proof {
            assert(ds.deep_view() =~~= Self::descs_spec());
        }
        registry.register_many(ds);
    }

    /// One sampling pass: publish each mount point's usage in order;
    /// the first failed reading ends the pass with that mount point's
    /// error, keeping the writes made before it.
    pub fn collect(&self, inputs: Vec<MountUsageReading>) -> (r: (
        Vec<SeriesWrite>,
        Result<(), CollectionError>,
    ))
        ensures
            r.0.deep_view() == fs_writes_spec(inputs@),
            (match r.1 {
                Ok(()) => fs_err_spec(inputs@) is None,
                Err(e) => fs_err_spec(inputs@) == Some(e@),
            }),
            forall|k: int| 0 <= k < r.0.deep_view().len() ==> write_wf(#[trigger] r.0.deep_view()[k]),
    {
        let ghost all = inputs@;
        let n = inputs.len();
        let mut ws: Vec<SeriesWrite> = Vec::new();
        proof {
            assert(all.skip(0) =~= all);
            assert(ws.deep_view() =~~= Seq::<WriteV>::empty());
            assert(ws.deep_view() + fs_writes_spec(all) =~~= fs_writes_spec(all));
        }
        let mut i: usize = 0;
        while i < n
            invariant
                0 <= i <= n,
                n == inputs@.len(),
                all == inputs@,
                fs_writes_spec(all) == ws.deep_view() + fs_writes_spec(all.skip(i as int)),
                fs_err_spec(all) == fs_err_spec(all.skip(i as int)),
                forall|k: int|
                    0 <= k < ws.deep_view().len() ==> write_wf(#[trigger] ws.deep_view()[k]),
            decreases n - i,
        {
            proof {
                assert(all.skip(i as int)[0] == all[i as int]);
                assert(all.skip(i as int).skip(1) =~= all.skip(i + 1));
            }
            let entry = &inputs[i];
            match &entry.usage {
                Err(e) => {
                    proof {
                        assert(fs_writes_spec(all.skip(i as int)) =~~= Seq::<WriteV>::empty());
                    }
                    return (
                        ws,
                        Err(
                            CollectionError::Filesystem {
                                mountpoint: entry.mountpoint.clone(),
                                context: e.context.clone(),
                            },
                        ),
                    );
                },
                Ok(u) => {
                    let ghost base = ws.deep_view();
                    let mut labels: Vec<String> = Vec::new();
                    labels.push(u.mount_point.clone());
                    labels.push(u.device.clone());
                    labels.push(u.fs_type.clone());
                    let value = if u.usage_ratio.den >= 1 {
                        u.usage_ratio
                    } else {
                        MetricValue { num: u.usage_ratio.num, den: 1 }
                    };
                    ws.push(
                        SeriesWrite {
                            family: "litemon_fs_usage_ratio",
                            labels,
                            op: WriteOp::SetTo(value),
                        },
                    );
                    proof {
                        assert(ws.deep_view() =~~= base.push(fs_write_one(*u)));
                        assert(base.push(fs_write_one(*u)) + fs_writes_spec(all.skip(i + 1))
                            =~~= base + (seq![fs_write_one(*u)] + fs_writes_spec(
                            all.skip(i + 1),
                        )));
                    }
                },
            }
            i += 1;
        }
        proof {
            assert(all.skip(n as int) =~= Seq::<MountUsageReading>::empty());
        }
        (ws, Ok(()))
    }
}

/// Collector for disk I/O byte totals.
#[derive(PartialEq, Eq, Debug)]
pub struct DiskStatsCollector {
    /// Mount points whose disks are reported.
    pub mountpoints: Vec<String>,
}

/// Whether `x` occurs in `xs`.
pub open spec fn seq_contains_str(xs: Seq<Seq<char>>, x: Seq<char>) -> bool {
    exists|i: int| 0 <= i < xs.len() && xs[i] == x
}

/// The two counter writes for one disk's byte totals.
pub open spec fn disk_entry_writes(d: DiskEntryV) -> Seq<WriteV> {
    seq![
        WriteV {
            family: "litemon_disk_bytes_read_total"@,
            labels: seq![d.device, d.metrics.mountpoint],
            op: WriteOp::CounterTo(d.metrics.bytes_read_total),
        },
        WriteV {
            family: "litemon_disk_bytes_written_total"@,
            labels: seq![d.device, d.metrics.mountpoint],
            op: WriteOp::CounterTo(d.metrics.bytes_written_total),
        },
    ]
}

/// The writes of one disk pass: two counter writes per reported disk
/// whose mount point is configured.
pub open spec fn disk_writes_spec(mountpoints: Seq<Seq<char>>, disks: Seq<DiskEntryV>)
    -> Seq<WriteV>
    decreases disks.len(),
{
    if disks.len() == 0 {
        Seq::empty()
    } else {
        let rest = disk_writes_spec(mountpoints, disks.skip(1));
        if seq_contains_str(mountpoints, disks[0].metrics.mountpoint) {
            disk_entry_writes(disks[0]) + rest
        } else {
            rest
        }
    }
}

/// Whether `s` occurs among the strings of `xs`.
pub fn contains_str(xs: &Vec<String>, s: &str) -> (r: bool)
    ensures
        r == seq_contains_str(xs.deep_view(), s@),
{
    let n = xs.len();
    let mut i: usize = 0;
    while i < n
        invariant
            0 <= i <= n,
            n == xs@.len(),
            forall|k: int| 0 <= k < i ==> (#[trigger] xs.deep_view()[k]) != s@,
        decreases n - i,
    {
        if crate::registry::str_eq(xs[i].as_str(), s) {
            assert(xs.deep_view()[i as int] == s@);
            return true;
        }
        i += 1;
    }
    false
}

impl DiskStatsCollector {
    /// Build the producer from its options: the reported mount points
    /// are the comma-separated `mountpoints` option, defaulting to the
    /// root filesystem when the key is absent.
    pub fn new(options: &Vec<(String, String)>) -> (r: DiskStatsCollector)
        ensures
            r.mountpoints.deep_view() == (match opts_get_spec(
                options.deep_view(),
                "mountpoints"@,
            ) {
                None => seq!["/"@],
                Some(v) => split_trim_spec(v),
            }),
    {
        let mountpoints = match opts_get(options, "mountpoints") {
            None => {
                let mut v: Vec<String> = Vec::new();
                v.push("/".to_owned());
                proof {
                    assert(v.deep_view() =~~= seq!["/"@]);
                }
                v
            },
            Some(s) => split_and_trim(s.as_str()),
        };
        DiskStatsCollector { mountpoints }
    }

    /// The series descriptors of this producer.
    pub open spec fn descs_spec() -> Seq<DescriptorV> {
        seq![
            DescriptorV {
                name: "litemon_disk_bytes_written_total"@,
                help: "Number of bytes written to disk since boot"@,
                kind: MetricKind::Gauge,
                label_names: seq!["device"@, "mountpoint"@],
            },
            DescriptorV {
                name: "litemon_disk_bytes_read_total"@,
                help: "Number of bytes read from disk since boot"@,
                kind: MetricKind::Gauge,
                label_names: seq!["device"@, "mountpoint"@],
            },
        ]
    }

    /// Register this producer's descriptors.
    pub fn register(&self, registry: &mut Registry)
        requires
            old(registry).wf(),
        ensures
            final(registry).wf(),
            final(registry)@ == crate::registry::register_all_spec(
                old(registry)@,
                Self::descs_spec(),
            ),
    {
        let mut n1: Vec<&'static str> = Vec::new();
        n1.push("device");
        n1.push("mountpoint");
        let mut n2: Vec<&'static str> = Vec::new();
        n2.push("device");
        n2.push("mountpoint");
        let mut ds: Vec<Descriptor> = Vec::new();
        ds.push(
            Descriptor {
                name: "litemon_disk_bytes_written_total",
                help: "Number of bytes written to disk since boot",
                kind: MetricKind::Gauge,
                label_names: n1,
            },
        );
        ds.push(
            Descriptor {
                name: "litemon_disk_bytes_read_total",
                help: "Number of bytes read from disk since boot",
                kind: MetricKind::Gauge,
                label_names: n2,
            },
        );
        proof {
            assert(ds.deep_view() =~~= Self::descs_spec());
        }
        registry.register_many(ds);
    }

    /// One sampling pass: raise the byte counters of each reported
    /// disk mounted at a configured mount point toward their raw
    /// totals, or report the read failure and write nothing.
    pub fn collect(&self, input: Result<IOMetrics, ReadError>) -> (r: (
        Vec<SeriesWrite>,
        Result<(), CollectionError>,
    ))
        ensures
            r.0.deep_view() == (match input {
                Ok(io) => disk_writes_spec(self.mountpoints.deep_view(), io.disks.deep_view()),
                Err(_) => Seq::<WriteV>::empty(),
            }),
            (match r.1 {
                Ok(()) => input is Ok,
                Err(e) => (match input {
                    Err(re) => e@ == (CollectionErrorV::Read { context: re.context@ }),
                    Ok(_) => false,
                }),
            }),
            forall|k: int| 0 <= k < r.0.deep_view().len() ==> write_wf(#[trigger] r.0.deep_view()[k]),
    {
        match input {
            Err(e) => {
                let ws: Vec<SeriesWrite> = Vec::new();
                proof {
                    assert(ws.deep_view() =~~= Seq::<WriteV>::empty());
                }
                (ws, Err(CollectionError::Read { context: e.context }))
            },
            Ok(io) => {
                let ghost mps = self.mountpoints.deep_view();
                let ghost dks = io.disks.deep_view();
                let n = io.disks.len();
                let mut ws: Vec<SeriesWrite> = Vec::new();
                proof {
                    assert(dks.skip(0) =~= dks);
                    assert(ws.deep_view() =~~= Seq::<WriteV>::empty());
                    assert(ws.deep_view() + disk_writes_spec(mps, dks) =~~= disk_writes_spec(
                        mps,
                        dks,
                    ));
                }
                let mut i: usize = 0;
                while i < n
                    invariant
                        0 <= i <= n,
                        n == io.disks@.len(),
                        mps == self.mountpoints.deep_view(),
                        dks == io.disks.deep_view(),
                        disk_writes_spec(mps, dks) == ws.deep_view() + disk_writes_spec(
                            mps,
                            dks.skip(i as int),
                        ),
                        forall|k: int|
                            0 <= k < ws.deep_view().len() ==> write_wf(
                                #[trigger] ws.deep_view()[k],
                            ),
                    decreases n - i,
                {
                    proof {
                        assert(dks.skip(i as int)[0] == dks[i as int]);
                        assert(dks.skip(i as int).skip(1) =~= dks.skip(i + 1));
                    }
                    let entry = &io.disks[i];
                    if contains_str(&self.mountpoints, entry.metrics.mountpoint.as_str()) {
                        let ghost base = ws.deep_view();
                        let mut l1: Vec<String> = Vec::new();
                        l1.push(entry.device.clone());
                        l1.push(entry.metrics.mountpoint.clone());
                        ws.push(
                            SeriesWrite {
                                family: "litemon_disk_bytes_read_total",
                                labels: l1,
                                op: WriteOp::CounterTo(entry.metrics.bytes_read_total),
                            },
                        );
                        let mut l2: Vec<String> = Vec::new();
                        l2.push(entry.device.clone());
                        l2.push(entry.metrics.mountpoint.clone());
                        ws.push(
                            SeriesWrite {
                                family: "litemon_disk_bytes_written_total",
                                labels: l2,
                                op: WriteOp::CounterTo(entry.metrics.bytes_written_total),
                            },
                        );
                        proof {
                            assert(ws.deep_view() =~~= base + disk_entry_writes(dks[i as int]));
                            assert(base + disk_entry_writes(dks[i as int]) + disk_writes_spec(
                                mps,
                                dks.skip(i + 1),
                            ) =~~= base + (disk_entry_writes(dks[i as int]) + disk_writes_spec(
                                mps,
                                dks.skip(i + 1),
                            )));
                        }
                    }
                    i += 1;
                }
                proof {
                    assert(dks.skip(n as int) =~= Seq::<DiskEntryV>::empty());
                }
                (ws, Ok(()))
            },
        }
    }
}

/// One metric producer: the closed set of stat domains.
#[derive(PartialEq, Eq, Debug)]
pub enum Producer {
    NodeInfo(NodeInfoCollector),
    NodeUptime(NodeUptimeCollector),
    Cpu(CpuStatsCollector),
    Memory(MemoryStatsCollector),
    Systemd(SystemdUnitStateCollector),
    Network(NetworkStatsCollector),
    Filesystem(FilesystemStatsCollector),
    Pressure(PressureCollector),
    Disk(DiskStatsCollector),
}

impl Producer {
    /// Whether the input carries the reading this producer expects.
    pub open spec fn kind_matches(&self, input: &ProducerInput) -> bool {
        match (self, input) {
            (Producer::NodeInfo(_), ProducerInput::NodeInfo) => true,
            (Producer::NodeUptime(_), ProducerInput::NodeUptime(_)) => true,
            (Producer::Cpu(_), ProducerInput::Cpu(_)) => true,
            (Producer::Memory(_), ProducerInput::Memory(_)) => true,
            (Producer::Systemd(_), ProducerInput::Systemd(_)) => true,
            (Producer::Network(_), ProducerInput::Network(_)) => true,
            (Producer::Filesystem(_), ProducerInput::Filesystem(_)) => true,
            (Producer::Pressure(_), ProducerInput::Pressure(_)) => true,
            (Producer::Disk(_), ProducerInput::Disk(_)) => true,
            _ => false,
        }
    }

    /// The series descriptors this producer registers.
    pub open spec fn descs_spec(&self) -> Seq<DescriptorV> {
        match self {
            Producer::NodeInfo(_) => NodeInfoCollector::descs_spec(),
            Producer::NodeUptime(_) => NodeUptimeCollector::descs_spec(),
            Producer::Cpu(p) => CpuStatsCollector::descs_spec(p.load_avg_enabled),
            Producer::Memory(_) => MemoryStatsCollector::descs_spec(),
            Producer::Systemd(_) => SystemdUnitStateCollector::descs_spec(),
            Producer::Network(_) => NetworkStatsCollector::descs_spec(),
            Producer::Filesystem(_) => FilesystemStatsCollector::descs_spec(),
            Producer::Pressure(_) => PressureCollector::descs_spec(),
            Producer::Disk(_) => DiskStatsCollector::descs_spec(),
        }
    }

    /// The registry writes one pass of this producer makes for the
    /// given input.
    pub open spec fn writes_spec(&self, input: ProducerInput) -> Seq<WriteV> {
        match (self, input) {
            (Producer::NodeInfo(p), ProducerInput::NodeInfo) => node_info_writes_spec(*p),
            (Producer::NodeUptime(_), ProducerInput::NodeUptime(inp)) => node_uptime_writes_spec(
                inp,
            ),
            (Producer::Cpu(p), ProducerInput::Cpu(inp)) => cpu_writes_spec(*p, inp),
            (Producer::Memory(_), ProducerInput::Memory(inp)) => memory_writes_spec(inp),
            (Producer::Systemd(_), ProducerInput::Systemd(inp)) => systemd_writes_spec(inp@),
            (Producer::Network(p), ProducerInput::Network(inp)) => match inp {
                Ok(stats) => net_writes_spec(p.interfaces.deep_view(), stats.interfaces.deep_view()),
                Err(_) => Seq::empty(),
            },
            (Producer::Filesystem(_), ProducerInput::Filesystem(inp)) => fs_writes_spec(inp@),
            (Producer::Pressure(_), ProducerInput::Pressure(inp)) => pressure_writes_spec(inp),
            (Producer::Disk(p), ProducerInput::Disk(inp)) => match inp {
                Ok(io) => disk_writes_spec(p.mountpoints.deep_view(), io.disks.deep_view()),
                Err(_) => Seq::empty(),
            },
            _ => Seq::empty(),
        }
    }

    /// The error one pass of this producer reports for the given
    /// input, if any.
    pub open spec fn err_spec(&self, input: ProducerInput) -> Option<CollectionErrorV> {
        match (self, input) {
            (Producer::NodeInfo(_), ProducerInput::NodeInfo) => None,
            (Producer::NodeUptime(_), ProducerInput::NodeUptime(inp)) => node_uptime_err_spec(inp),
            (Producer::Cpu(_), ProducerInput::Cpu(inp)) => cpu_err_spec(inp),
            (Producer::Memory(_), ProducerInput::Memory(inp)) => memory_err_spec(inp),
            (Producer::Systemd(_), ProducerInput::Systemd(_)) => None,
            (Producer::Network(_), ProducerInput::Network(inp)) => match inp {
                Ok(_) => None,
                Err(e) => Some(CollectionErrorV::Read { context: e.context@ }),
            },
            (Producer::Filesystem(_), ProducerInput::Filesystem(inp)) => fs_err_spec(inp@),
            (Producer::Pressure(_), ProducerInput::Pressure(inp)) => pressure_err_spec(inp),
            (Producer::Disk(_), ProducerInput::Disk(inp)) => match inp {
                Ok(_) => None,
                Err(e) => Some(CollectionErrorV::Read { context: e.context@ }),
            },
            _ => None,
        }
    }

    /// How one pass changes the producer's own state: only the CPU
    /// producer carries sampling state (its previous snapshot); every
    /// other producer is unchanged by sampling.
    pub open spec fn post_spec(old_p: Producer, new_p: Producer, input: ProducerInput) -> bool {
        match (old_p, new_p, input) {
            (Producer::Cpu(o), Producer::Cpu(n), ProducerInput::Cpu(inp)) => cpu_post(o, n, inp),
            _ => new_p == old_p,
        }
    }

    /// Register this producer's descriptors.
    pub fn register(&self, registry: &mut Registry)
        requires
            old(registry).wf(),
        ensures
            final(registry).wf(),
            final(registry)@ == crate::registry::register_all_spec(
                old(registry)@,
                self.descs_spec(),
            ),
    {
        match self {
            Producer::NodeInfo(p) => p.register(registry),
            Producer::NodeUptime(p) => p.register(registry),
            Producer::Cpu(p) => p.register(registry),
            Producer::Memory(p) => p.register(registry),
            Producer::Systemd(p) => p.register(registry),
            Producer::Network(p) => p.register(registry),
            Producer::Filesystem(p) => p.register(registry),
            Producer::Pressure(p) => p.register(registry),
            Producer::Disk(p) => p.register(registry),
        }
    }

    /// One sampling pass of this producer: the registry writes it
    /// makes, the error it reports (if any), and its own next state.
    pub fn collect(&mut self, input: ProducerInput) -> (r: (
        Vec<SeriesWrite>,
        Result<(), CollectionError>,
    ))
        requires
            old(self).kind_matches(&input),
        ensures
            r.0.deep_view() == old(self).writes_spec(input),
            (match r.1 {
                Ok(()) => old(self).err_spec(input) is None,
                Err(e) => old(self).err_spec(input) == Some(e@),
            }),
            Producer::post_spec(*old(self), *final(self), input),
            forall|k: int| 0 <= k < r.0.deep_view().len() ==> write_wf(#[trigger] r.0.deep_view()[k]),
    {
        match self {
            Producer::NodeInfo(p) => {
                match input {
                    ProducerInput::NodeInfo => p.collect(),
                    _ => {
                        proof {
                            assert(false);
                        }
                        (Vec::new(), Ok(()))
                    },
                }
            },
            Producer::NodeUptime(p) => {
                match input {
                    ProducerInput::NodeUptime(inp) => p.collect(inp),
                    _ => {
                        proof {
                            assert(false);
                        }
                        (Vec::new(), Ok(()))
                    },
                }
            },
            Producer::Cpu(p) => {
                match input {
                    ProducerInput::Cpu(inp) => p.collect(inp),
                    _ => {
                        proof {
                            assert(false);
                        }
                        (Vec::new(), Ok(()))
                    },
                }
            },
            Producer::Memory(p) => {
                match input {
                    ProducerInput::Memory(inp) => p.collect(inp),
                    _ => {
                        proof {
                            assert(false);
                        }
                        (Vec::new(), Ok(()))
                    },
                }
            },
            Producer::Systemd(p) => {
                match input {
                    ProducerInput::Systemd(inp) => p.collect(inp),
                    _ => {
                        proof {
                            assert(false);
                        }
                        (Vec::new(), Ok(()))
                    },
                }
            },
            Producer::Network(p) => {
                match input {
                    ProducerInput::Network(inp) => p.collect(inp),
                    _ => {
                        proof {
                            assert(false);
                        }
                        (Vec::new(), Ok(()))
                    },
                }
            },
            Producer::Filesystem(p) => {
                match input {
                    ProducerInput::Filesystem(inp) => p.collect(inp),
                    _ => {
                        proof {
                            assert(false);
                        }
                        (Vec::new(), Ok(()))
                    },
                }
            },
            Producer::Pressure(p) => {
                match input {
                    ProducerInput::Pressure(inp) => p.collect(inp),
                    _ => {
                        proof {
                            assert(false);
                        }
                        (Vec::new(), Ok(()))
                    },
                }
            },
            Producer::Disk(p) => {
                match input {
                    ProducerInput::Disk(inp) => p.collect(inp),
                    _ => {
                        proof {
                            assert(false);
                        }
                        (Vec::new(), Ok(()))
                    },
                }
            },
        }
    }
}

/// What the zero writes leave for a state that occurs among them.
proof fn lemma_last_set_zero_writes(unit: Seq<char>, s: ActiveState, states: Seq<ActiveState>)
    requires
        exists|i: int| 0 <= i < states.len() && states[i] == s,
    ensures
        crate::registry::last_set(
            states.map_values(|x: ActiveState| zero_write(unit, x)),
            "litemon_systemd_unit_state"@,
            seq![unit, state_name(s)],
        ) == Some(MetricValue { num: 0, den: 1 }),
    decreases states.len(),
{
    let zeros = states.map_values(|x: ActiveState| zero_write(unit, x));
    let target = seq![unit, state_name(s)];
    let lastst = states.last();
    assert(zeros.last() == zero_write(unit, lastst));
    if state_name(lastst) == state_name(s) {
        assert(zeros.last().labels =~= target);
    } else {
        assert(zeros.last().labels != target) by {
            if zeros.last().labels == target {
                assert(zeros.last().labels[1] == state_name(lastst));
                assert(target[1] == state_name(s));
            }
        }
        let i = choose|i: int| 0 <= i < states.len() && states[i] == s;
        assert(states[i] == s);
        assert(i != states.len() - 1) by {
            if i == states.len() - 1 {
                assert(lastst == s);
            }
        }
        assert(exists|j: int|
            0 <= j < states.drop_last().len() && states.drop_last()[j] == s) by {
            assert(states.drop_last()[i] == s);
        }
        assert(zeros.drop_last() =~= states.drop_last().map_values(
            |x: ActiveState| zero_write(unit, x),
        ));
        lemma_last_set_zero_writes(unit, s, states.drop_last());
    }
}

/// One-hot service state: after applying one unit's state writes for
/// a reported state, the unit's series for that state holds 1 and its
/// series for every other known state holds 0 — for every state name,
/// even one never observed before, and whatever the series held
/// beforehand.  Exactly one of the eight state series is 1.
pub proof fn lemma_one_hot_state(
    reg: Seq<crate::registry::FamilyV>,
    unit: Seq<char>,
    st: ActiveState,
    s: ActiveState,
)
    requires
        crate::registry::registry_wf(reg),
        crate::registry::has_family(reg, "litemon_systemd_unit_state"@),
    ensures
        crate::registry::value_of(
            crate::registry::apply_writes_spec(reg, one_hot_writes(unit, st)),
            "litemon_systemd_unit_state"@,
            seq![unit, state_name(s)],
        ) == Some(
            if s == st {
                MetricValue { num: 1, den: 1 }
            } else {
                MetricValue { num: 0, den: 1 }
            },
        ),
{
    let fam = "litemon_systemd_unit_state"@;
    let ws = one_hot_writes(unit, st);
    let target = seq![unit, state_name(s)];
    let zeros = all_states_spec().map_values(|x: ActiveState| zero_write(unit, x));
    assert(crate::registry::all_set_writes(ws)) by {
        assert forall|k: int| 0 <= k < ws.len() implies (#[trigger] ws[k]).op is SetTo by {
            if k < zeros.len() {
                assert(ws[k] == zeros[k]);
                assert(zeros[k] == zero_write(unit, all_states_spec()[k]));
            } else {
                assert(ws[k] == one_write(unit, st));
            }
        }
    }
    assert(forall|k: int| 0 <= k < ws.len() ==> crate::registry::write_wf(#[trigger] ws[k])) by {
        assert forall|k: int| 0 <= k < ws.len() implies crate::registry::write_wf(
            #[trigger] ws[k],
        ) by {
            if k < zeros.len() {
                assert(ws[k] == zeros[k]);
                assert(zeros[k] == zero_write(unit, all_states_spec()[k]));
            } else {
                assert(ws[k] == one_write(unit, st));
            }
        }
    }
    crate::registry::lemma_apply_writes_last_set(reg, ws, fam, target);
    assert(ws.last() == one_write(unit, st));
    assert(ws.drop_last() =~= zeros);
    if s == st {
        assert(one_write(unit, st).labels =~= target);
        assert(crate::registry::last_set(ws, fam, target) == Some(
            MetricValue { num: 1, den: 1 },
        ));
    } else {
        assert(one_write(unit, st).labels != target) by {
            if one_write(unit, st).labels == target {
                assert(one_write(unit, st).labels[1] == state_name(st));
                assert(target[1] == state_name(s));
                crate::systemd_unit_state::lemma_state_names_injective(st, s);
            }
        }
        assert(exists|i: int|
            0 <= i < all_states_spec().len() && all_states_spec()[i] == s) by {
            match s {
                ActiveState::Active => {
                    assert(all_states_spec()[0] == s);
                },
                ActiveState::Inactive => {
                    assert(all_states_spec()[1] == s);
                },
                ActiveState::Failed => {
                    assert(all_states_spec()[2] == s);
                },
                ActiveState::Activating => {
                    assert(all_states_spec()[3] == s);
                },
                ActiveState::Deactivating => {
                    assert(all_states_spec()[4] == s);
                },
                ActiveState::Maintenance => {
                    assert(all_states_spec()[5] == s);
                },
                ActiveState::Reloading => {
                    assert(all_states_spec()[6] == s);
                },
                ActiveState::Refreshing => {
                    assert(all_states_spec()[7] == s);
                },
            }
        }
        lemma_last_set_zero_writes(unit, s, all_states_spec());
        assert(crate::registry::last_set(ws, fam, target) == Some(
            MetricValue { num: 0, den: 1 },
        ));
    }
}

} // verus!
