//! Typed configuration: one `enabled` flag and optional parameters per
//! metric domain.
//!
//! Absent domains take the documented defaults: CPU, load-average and
//! memory enabled; everything else — node information, node uptime,
//! unit states, network, filesystem, pressure, disk I/O — disabled.  [`MetricsConfig::from_raw`]
//! applies the raw key/value material of a configuration document —
//! already reduced to plain optional values by the caller — on top of
//! those defaults: a domain node that is present overrides the default,
//! with a missing `enabled` key counting as disabled and a missing
//! period defaulting to 1000 ms.

use vstd::prelude::*;

verus! {

/// Everything related to metrics.
#[derive(Clone, PartialEq, Eq, Debug)]
pub struct UserConfig {
    /// Per-domain metric configuration.
    pub metrics: MetricsConfig,
}

/// Configuration of each supported metric domain.
#[derive(Clone, PartialEq, Eq, Debug)]
pub struct MetricsConfig {
    pub node_info: NodeInfoConfig,
    pub node_uptime: NodeUptimeConfig,
    pub cpu_seconds: CpuSecondsConfig,
    pub loadavg: LoadAvgConfig,
    pub memory_used: MemoryUsedConfig,
    pub systemd_unit_state: SystemdUnitStateConfig,
    pub network_throughput: NetworkThroughputConfig,
    pub disk_usage: DiskUsageConfig,
    pub pressure: PressureConfig,
    pub disk_stats: DiskStatsConfig,
}

/// Node information (hostname and architecture).
#[derive(Clone, Copy, PartialEq, Eq, Structural, Debug)]
pub struct NodeInfoConfig {
    pub enabled: bool,
}

/// Node uptime.
#[derive(Clone, Copy, PartialEq, Eq, Structural, Debug)]
pub struct NodeUptimeConfig {
    pub enabled: bool,
}

/// CPU usage sampling.
#[derive(Clone, Copy, PartialEq, Eq, Structural, Debug)]
pub struct CpuSecondsConfig {
    pub enabled: bool,
    /// Sampling period in milliseconds.
    pub period_ms: u64,
}

/// Load averages.
#[derive(Clone, Copy, PartialEq, Eq, Structural, Debug)]
pub struct LoadAvgConfig {
    pub enabled: bool,
}

/// Memory usage.
#[derive(Clone, Copy, PartialEq, Eq, Structural, Debug)]
pub struct MemoryUsedConfig {
    pub enabled: bool,
}

/// Service-unit activation states.
#[derive(Clone, PartialEq, Eq, Debug)]
pub struct SystemdUnitStateConfig {
    pub enabled: bool,
    /// Names of the units to track, suffix included.
    pub units: Vec<String>,
}

/// Network throughput.
#[derive(Clone, PartialEq, Eq, Debug)]
pub struct NetworkThroughputConfig {
    pub enabled: bool,
    /// Names of the interfaces to track.
    pub interfaces: Vec<String>,
}

/// Filesystem usage.
#[derive(Clone, PartialEq, Eq, Debug)]
pub struct DiskUsageConfig {
    pub enabled: bool,
    /// Mount points to report.
    pub mountpoints: Vec<String>,
}

/// Resource-pressure stall totals.
#[derive(Clone, Copy, PartialEq, Eq, Structural, Debug)]
pub struct PressureConfig {
    pub enabled: bool,
}

/// Disk I/O byte totals.
#[derive(Clone, PartialEq, Eq, Debug)]
pub struct DiskStatsConfig {
    pub enabled: bool,
    /// Mount points whose disks are reported.
    pub mountpoints: Vec<String>,
}

/// The documented default configuration: CPU (200 ms period),
/// load-average and memory enabled; every other domain disabled with
/// an empty parameter list.
pub open spec fn is_default_metrics(m: MetricsConfig) -> bool {
    &&& m.node_info.enabled == false
    &&& m.node_uptime.enabled == false
    &&& m.cpu_seconds.enabled == true
    &&& m.cpu_seconds.period_ms == 200
    &&& m.loadavg.enabled == true
    &&& m.memory_used.enabled == true
    &&& m.systemd_unit_state.enabled == false
    &&& m.systemd_unit_state.units@.len() == 0
    &&& m.network_throughput.enabled == false
    &&& m.network_throughput.interfaces@.len() == 0
    &&& m.disk_usage.enabled == false
    &&& m.disk_usage.mountpoints@.len() == 0
    &&& m.pressure.enabled == false
    &&& m.disk_stats.enabled == false
    &&& m.disk_stats.mountpoints@.len() == 0
}

impl Default for MetricsConfig {
    /// The documented defaults.
    fn default() -> (r: MetricsConfig)
        ensures
            is_default_metrics(r),
    {
        MetricsConfig {
            node_info: NodeInfoConfig { enabled: false },
            node_uptime: NodeUptimeConfig { enabled: false },
            cpu_seconds: CpuSecondsConfig { enabled: true, period_ms: 200 },
            loadavg: LoadAvgConfig { enabled: true },
            memory_used: MemoryUsedConfig { enabled: true },
            systemd_unit_state: SystemdUnitStateConfig { enabled: false, units: Vec::new() },
            network_throughput: NetworkThroughputConfig {
                enabled: false,
                interfaces: Vec::new(),
            },
            disk_usage: DiskUsageConfig { enabled: false, mountpoints: Vec::new() },
            pressure: PressureConfig { enabled: false },
            disk_stats: DiskStatsConfig { enabled: false, mountpoints: Vec::new() },
        }
    }
}

impl Default for UserConfig {
    /// The documented defaults.
    fn default() -> (r: UserConfig)
        ensures
            is_default_metrics(r.metrics),
    {
        UserConfig { metrics: MetricsConfig::default() }
    }
}

/// A toggle-only domain node of a configuration document.
#[derive(Clone, Copy, PartialEq, Eq, Structural, Debug)]
pub struct RawToggleNode {
    /// The node's `enabled` value, when the key is present.
    pub enabled: Option<bool>,
}

/// The CPU domain node: a toggle plus an optional period.
#[derive(Clone, Copy, PartialEq, Eq, Structural, Debug)]
pub struct RawCpuSecondsNode {
    pub enabled: Option<bool>,
    pub period_ms: Option<u64>,
}

/// A domain node carrying a toggle and a list of names (units,
/// interfaces, or mount points; absent lists count as empty).
#[derive(Clone, PartialEq, Eq, Debug)]
pub struct RawListNode {
    pub enabled: Option<bool>,
    pub items: Vec<String>,
}

/// The raw domain nodes found in a configuration document.  `None`
/// means the node is absent and the domain keeps its default.
#[derive(Clone, PartialEq, Eq, Debug)]
pub struct RawMetricsConfig {
    pub node_info: Option<RawToggleNode>,
    pub node_uptime: Option<RawToggleNode>,
    pub cpu_seconds: Option<RawCpuSecondsNode>,
    pub loadavg: Option<RawToggleNode>,
    pub memory_used: Option<RawToggleNode>,
    pub systemd_unit_state: Option<RawListNode>,
    pub network_throughput: Option<RawListNode>,
    pub disk_usage: Option<RawListNode>,
    pub pressure: Option<RawToggleNode>,
    pub disk_stats: Option<RawListNode>,
}

/// A present node's `enabled` value, with a missing key counting as
/// disabled.
pub open spec fn toggle_value(t: Option<bool>) -> bool {
    match t {
        Some(b) => b,
        None => false,
    }
}

impl MetricsConfig {
    /// Apply raw domain nodes on top of the defaults: a present node
    /// overrides its domain, an absent node keeps the default.
    pub fn from_raw(raw: RawMetricsConfig) -> (r: MetricsConfig)
        ensures
            (match raw.node_info {
                Some(n) => r.node_info.enabled == toggle_value(n.enabled),
                None => r.node_info.enabled == false,
            }),
            (match raw.node_uptime {
                Some(n) => r.node_uptime.enabled == toggle_value(n.enabled),
                None => r.node_uptime.enabled == false,
            }),
            (match raw.cpu_seconds {
                Some(n) => r.cpu_seconds.enabled == toggle_value(n.enabled)
                    && r.cpu_seconds.period_ms == (match n.period_ms {
                    Some(p) => p,
                    None => 1000u64,
                }),
                None => r.cpu_seconds.enabled == true && r.cpu_seconds.period_ms == 200,
            }),
            (match raw.loadavg {
                Some(n) => r.loadavg.enabled == toggle_value(n.enabled),
                None => r.loadavg.enabled == true,
            }),
            (match raw.memory_used {
                Some(n) => r.memory_used.enabled == toggle_value(n.enabled),
                None => r.memory_used.enabled == true,
            }),
            (match raw.systemd_unit_state {
                Some(n) => r.systemd_unit_state.enabled == toggle_value(n.enabled)
                    && r.systemd_unit_state.units.deep_view() == n.items.deep_view(),
                None => r.systemd_unit_state.enabled == false
                    && r.systemd_unit_state.units@.len() == 0,
            }),
            (match raw.network_throughput {
                Some(n) => r.network_throughput.enabled == toggle_value(n.enabled)
                    && r.network_throughput.interfaces.deep_view() == n.items.deep_view(),
                None => r.network_throughput.enabled == false
                    && r.network_throughput.interfaces@.len() == 0,
            }),
            (match raw.disk_usage {
                Some(n) => r.disk_usage.enabled == toggle_value(n.enabled)
                    && r.disk_usage.mountpoints.deep_view() == n.items.deep_view(),
                None => r.disk_usage.enabled == false && r.disk_usage.mountpoints@.len() == 0,
            }),
            (match raw.pressure {
                Some(n) => r.pressure.enabled == toggle_value(n.enabled),
                None => r.pressure.enabled == false,
            }),
            (match raw.disk_stats {
                Some(n) => r.disk_stats.enabled == toggle_value(n.enabled)
                    && r.disk_stats.mountpoints.deep_view() == n.items.deep_view(),
                None => r.disk_stats.enabled == false && r.disk_stats.mountpoints@.len() == 0,
            }),
    {
        let mut ret = MetricsConfig::default();
        match raw.node_info {
            None => (),
            Some(n) => {
                ret.node_info = NodeInfoConfig {
                    enabled: match n.enabled {
                        Some(b) => b,
                        None => false,
                    },
                };
            },
        }
        match raw.node_uptime {
            None => (),
            Some(n) => {
                ret.node_uptime = NodeUptimeConfig {
                    enabled: match n.enabled {
                        Some(b) => b,
                        None => false,
                    },
                };
            },
        }
        match raw.cpu_seconds {
            None => (),
            Some(n) => {
                ret.cpu_seconds = CpuSecondsConfig {
                    enabled: match n.enabled {
                        Some(b) => b,
                        None => false,
                    },
                    period_ms: match n.period_ms {
                        Some(p) => p,
                        None => 1000,
                    },
                };
            },
        }
        match raw.loadavg {
            None => (),
            Some(n) => {
                ret.loadavg = LoadAvgConfig {
                    enabled: match n.enabled {
                        Some(b) => b,
                        None => false,
                    },
                };
            },
        }
        match raw.memory_used {
            None => (),
            Some(n) => {
                ret.memory_used = MemoryUsedConfig {
                    enabled: match n.enabled {
                        Some(b) => b,
                        None => false,
                    },
                };
            },
        }
        match raw.systemd_unit_state {
            None => (),
            Some(n) => {
                ret.systemd_unit_state = SystemdUnitStateConfig {
                    enabled: match n.enabled {
                        Some(b) => b,
                        None => false,
                    },
                    units: n.items,
                };
            },
        }
        match raw.network_throughput {
            None => (),
            Some(n) => {
                ret.network_throughput = NetworkThroughputConfig {
                    enabled: match n.enabled {
                        Some(b) => b,
                        None => false,
                    },
                    interfaces: n.items,
                };
            },
        }
        match raw.disk_usage {
            None => (),
            Some(n) => {
                ret.disk_usage = DiskUsageConfig {
                    enabled: match n.enabled {
                        Some(b) => b,
                        None => false,
                    },
                    mountpoints: n.items,
                };
            },
        }
        match raw.pressure {
            None => (),
            Some(n) => {
                ret.pressure = PressureConfig {
                    enabled: match n.enabled {
                        Some(b) => b,
                        None => false,
                    },
                };
            },
        }
        match raw.disk_stats {
            None => (),
            Some(n) => {
                ret.disk_stats = DiskStatsConfig {
                    enabled: match n.enabled {
                        Some(b) => b,
                        None => false,
                    },
                    mountpoints: n.items,
                };
            },
        }
        ret
    }
}

} // verus!
