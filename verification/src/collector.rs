//! The orchestrator: owns the registry and the active producers and
//! runs collection passes.
//!
//! Setup instantiates exactly the enabled producers in a fixed,
//! deterministic order and is fatal on a construction failure.  A
//! collection pass hands every producer its raw reading (the caller
//! gathers the readings, concurrently if it wishes — producers are
//! independent and share no state), applies each producer's writes to
//! the registry in registration order, and reports the first error in
//! that order while still letting every other producer update its own
//! series and state.  The registry's descriptor set never changes
//! during a pass.

use vstd::prelude::*;

use crate::config::MetricsConfig;
use crate::config::UserConfig;
use crate::cpu::RawCpuTicks;
use crate::info::NodeInfo;
use crate::producer::CollectionError;
use crate::producer::CollectionErrorV;
use crate::producer::CpuStatsCollector;
use crate::producer::DiskStatsCollector;
use crate::producer::FilesystemStatsCollector;
use crate::producer::MemoryStatsCollector;
use crate::producer::NetworkStatsCollector;
use crate::producer::NodeInfoCollector;
use crate::producer::NodeUptimeCollector;
use crate::producer::PressureCollector;
use crate::producer::Producer;
use crate::producer::ProducerInput;
use crate::producer::ReadError;
use crate::producer::SystemdUnitStateCollector;
use crate::registry::apply_writes_spec;
use crate::registry::desc_seq;
use crate::registry::register_all_spec;
use crate::registry::FamilyV;
use crate::registry::Registry;
use crate::strutil::clone_string_vec;
use crate::systemd_unit_state::UnitCache;

verus! {

/// The readings taken once, at setup time, before any pass.
#[derive(PartialEq, Eq, Debug)]
pub struct InitReadings {
    /// Hostname, architecture and uptime; needed exactly when the
    /// node-information domain is enabled.
    pub node_info: Option<Result<NodeInfo, ReadError>>,
    /// The initial CPU snapshot; needed exactly when the CPU domain
    /// is enabled.
    pub cpu_stat: Option<Result<Vec<RawCpuTicks>, ReadError>>,
    /// Whether the service-manager session came up; needed exactly
    /// when the unit-state domain is enabled.
    pub systemd: Option<Result<(), ReadError>>,
}

/// A construction-time failure: fatal, it prevents the process from
/// starting.
#[derive(PartialEq, Eq, Debug)]
pub enum SetupError {
    /// The node information could not be read.
    NodeInfo { context: String },
    /// The initial CPU snapshot could not be read.
    CpuSnapshot { context: String },
    /// The service-manager session could not be established.
    Systemd { context: String },
    /// The CPU domain is enabled but no initial snapshot was supplied.
    MissingCpuSnapshot,
    /// The unit-state domain is enabled but no session outcome was
    /// supplied.
    MissingSystemdSession,
    /// The node-information domain is enabled but no reading was
    /// supplied.
    MissingNodeInfo,
}

/// Mathematical image of a [`SetupError`].
#[verifier::ext_equal]
pub enum SetupErrorV {
    NodeInfo { context: Seq<char> },
    CpuSnapshot { context: Seq<char> },
    Systemd { context: Seq<char> },
    MissingCpuSnapshot,
    MissingSystemdSession,
    MissingNodeInfo,
}

impl View for SetupError {
    type V = SetupErrorV;

    open spec fn view(&self) -> SetupErrorV {
        match self {
            SetupError::NodeInfo { context } => SetupErrorV::NodeInfo { context: context@ },
            SetupError::CpuSnapshot { context } => SetupErrorV::CpuSnapshot { context: context@ },
            SetupError::Systemd { context } => SetupErrorV::Systemd { context: context@ },
            SetupError::MissingCpuSnapshot => SetupErrorV::MissingCpuSnapshot,
            SetupError::MissingSystemdSession => SetupErrorV::MissingSystemdSession,
            SetupError::MissingNodeInfo => SetupErrorV::MissingNodeInfo,
        }
    }
}

/// Whether the CPU producer is instantiated: for CPU usage or for the
/// load averages (the load averages live on the CPU producer).
pub open spec fn cpu_enabled(m: MetricsConfig) -> bool {
    m.cpu_seconds.enabled || m.loadavg.enabled
}

/// The shape of one producer that setup must deliver.
pub enum ProducerShape {
    NodeInfo { hostname: Seq<char>, arch: Seq<char> },
    NodeUptime,
    Cpu { load_avg_enabled: bool, initial: Seq<RawCpuTicks> },
    Memory,
    Systemd { units: Seq<Seq<char>> },
    Network { interfaces: Seq<Seq<char>> },
    Filesystem { mountpoints: Seq<Seq<char>> },
    Pressure,
    Disk { mountpoints: Seq<Seq<char>> },
}

/// Whether a producer has the given shape (with the unit cache
/// starting empty and the CPU snapshot summarising the initial
/// reading).
pub open spec fn has_shape(p: Producer, s: ProducerShape) -> bool {
    match (p, s) {
        (Producer::NodeInfo(c), ProducerShape::NodeInfo { hostname, arch }) => c.hostname@
            == hostname && c.arch@ == arch,
        (Producer::NodeUptime(_), ProducerShape::NodeUptime) => true,
        (Producer::Cpu(c), ProducerShape::Cpu { load_avg_enabled, initial }) => {
            &&& c.load_avg_enabled == load_avg_enabled
            &&& c.last_cpu_snapshot.summarises(initial)
        },
        (Producer::Memory(_), ProducerShape::Memory) => true,
        (Producer::Systemd(c), ProducerShape::Systemd { units }) => c.units.deep_view() == units
            && c.cache@ == Seq::<(Seq<char>, Seq<char>)>::empty() && c.cache.wf(),
        (Producer::Network(c), ProducerShape::Network { interfaces }) => c.interfaces.deep_view()
            == interfaces,
        (Producer::Filesystem(c), ProducerShape::Filesystem { mountpoints }) => c
            .mountpoints.deep_view() == mountpoints,
        (Producer::Pressure(_), ProducerShape::Pressure) => true,
        (Producer::Disk(c), ProducerShape::Disk { mountpoints }) => c.mountpoints.deep_view()
            == mountpoints,
        _ => false,
    }
}

/// The node-information shape, when that domain is enabled.
pub open spec fn shapes_node_info(m: MetricsConfig, hostname: Seq<char>, arch: Seq<char>)
    -> Seq<ProducerShape> {
    if m.node_info.enabled {
        seq![ProducerShape::NodeInfo { hostname, arch }]
    } else {
        Seq::empty()
    }
}

/// Shapes after the uptime stage.
pub open spec fn shapes_uptime(m: MetricsConfig, hostname: Seq<char>, arch: Seq<char>)
    -> Seq<ProducerShape> {
    if m.node_uptime.enabled {
        shapes_node_info(m, hostname, arch).push(ProducerShape::NodeUptime)
    } else {
        shapes_node_info(m, hostname, arch)
    }
}

/// Shapes after the CPU stage.
pub open spec fn shapes_cpu(
    m: MetricsConfig,
    hostname: Seq<char>,
    arch: Seq<char>,
    initial: Seq<RawCpuTicks>,
) -> Seq<ProducerShape> {
    if cpu_enabled(m) {
        shapes_uptime(m, hostname, arch).push(
            ProducerShape::Cpu { load_avg_enabled: m.loadavg.enabled, initial },
        )
    } else {
        shapes_uptime(m, hostname, arch)
    }
}

/// Shapes after the memory stage.
pub open spec fn shapes_memory(
    m: MetricsConfig,
    hostname: Seq<char>,
    arch: Seq<char>,
    initial: Seq<RawCpuTicks>,
) -> Seq<ProducerShape> {
    if m.memory_used.enabled {
        shapes_cpu(m, hostname, arch, initial).push(ProducerShape::Memory)
    } else {
        shapes_cpu(m, hostname, arch, initial)
    }
}

/// Shapes after the unit-state stage.
pub open spec fn shapes_systemd(
    m: MetricsConfig,
    hostname: Seq<char>,
    arch: Seq<char>,
    initial: Seq<RawCpuTicks>,
) -> Seq<ProducerShape> {
    if m.systemd_unit_state.enabled {
        shapes_memory(m, hostname, arch, initial).push(
            ProducerShape::Systemd { units: m.systemd_unit_state.units.deep_view() },
        )
    } else {
        shapes_memory(m, hostname, arch, initial)
    }
}

/// Shapes after the network stage.
pub open spec fn shapes_network(
    m: MetricsConfig,
    hostname: Seq<char>,
    arch: Seq<char>,
    initial: Seq<RawCpuTicks>,
) -> Seq<ProducerShape> {
    if m.network_throughput.enabled {
        shapes_systemd(m, hostname, arch, initial).push(
            ProducerShape::Network { interfaces: m.network_throughput.interfaces.deep_view() },
        )
    } else {
        shapes_systemd(m, hostname, arch, initial)
    }
}

/// Shapes after the filesystem stage.
pub open spec fn shapes_filesystem(
    m: MetricsConfig,
    hostname: Seq<char>,
    arch: Seq<char>,
    initial: Seq<RawCpuTicks>,
) -> Seq<ProducerShape> {
    if m.disk_usage.enabled {
        shapes_network(m, hostname, arch, initial).push(
            ProducerShape::Filesystem { mountpoints: m.disk_usage.mountpoints.deep_view() },
        )
    } else {
        shapes_network(m, hostname, arch, initial)
    }
}

/// Shapes after the pressure stage.
pub open spec fn shapes_pressure(
    m: MetricsConfig,
    hostname: Seq<char>,
    arch: Seq<char>,
    initial: Seq<RawCpuTicks>,
) -> Seq<ProducerShape> {
    if m.pressure.enabled {
        shapes_filesystem(m, hostname, arch, initial).push(ProducerShape::Pressure)
    } else {
        shapes_filesystem(m, hostname, arch, initial)
    }
}

/// The producers setup delivers for a configuration, in their fixed
/// order, one per enabled domain: node info, uptime, CPU, memory,
/// unit state, network, filesystem, pressure, disk I/O.
pub open spec fn expected_shapes(
    m: MetricsConfig,
    hostname: Seq<char>,
    arch: Seq<char>,
    initial: Seq<RawCpuTicks>,
) -> Seq<ProducerShape> {
    if m.disk_stats.enabled {
        shapes_pressure(m, hostname, arch, initial).push(
            ProducerShape::Disk { mountpoints: m.disk_stats.mountpoints.deep_view() },
        )
    } else {
        shapes_pressure(m, hostname, arch, initial)
    }
}

/// The initial CPU snapshot reading setup works from: the raw reading
/// when the CPU domain is enabled and it was supplied, empty
/// otherwise.
pub open spec fn initial_cpu_of(m: MetricsConfig, init: InitReadings) -> Seq<RawCpuTicks> {
    if cpu_enabled(m) {
        match init.cpu_stat {
            Some(Ok(raw)) => raw@,
            _ => Seq::empty(),
        }
    } else {
        Seq::empty()
    }
}

/// The hostname setup works from: the node-information reading when
/// that domain is enabled and the reading was supplied, empty
/// otherwise.
pub open spec fn hostname_of(m: MetricsConfig, init: InitReadings) -> Seq<char> {
    if m.node_info.enabled {
        match init.node_info {
            Some(Ok(info)) => info.hostname@,
            _ => Seq::empty(),
        }
    } else {
        Seq::empty()
    }
}

/// The architecture setup works from, under the same conditions as
/// [`hostname_of`].
pub open spec fn arch_of(m: MetricsConfig, init: InitReadings) -> Seq<char> {
    if m.node_info.enabled {
        match init.node_info {
            Some(Ok(info)) => info.arch@,
            _ => Seq::empty(),
        }
    } else {
        Seq::empty()
    }
}

/// The setup failure a configuration and its initial readings force,
/// if any: a missing or failed node-information reading first (when
/// that domain is enabled), then a missing or failed CPU snapshot,
/// then a missing or failed service-manager session.
pub open spec fn setup_err_spec(m: MetricsConfig, init: InitReadings) -> Option<SetupErrorV> {
    if m.node_info.enabled && init.node_info is None {
        Some(SetupErrorV::MissingNodeInfo)
    } else if m.node_info.enabled && init.node_info.unwrap() is Err {
        Some(
            SetupErrorV::NodeInfo { context: init.node_info.unwrap().unwrap_err().context@ },
        )
    } else if cpu_enabled(m) && init.cpu_stat is None {
        Some(SetupErrorV::MissingCpuSnapshot)
    } else if cpu_enabled(m) && init.cpu_stat.unwrap() is Err {
        Some(
            SetupErrorV::CpuSnapshot { context: init.cpu_stat.unwrap().unwrap_err().context@ },
        )
    } else if m.systemd_unit_state.enabled && init.systemd is None {
        Some(SetupErrorV::MissingSystemdSession)
    } else if m.systemd_unit_state.enabled && init.systemd.unwrap() is Err {
        Some(SetupErrorV::Systemd { context: init.systemd.unwrap().unwrap_err().context@ })
    } else {
        None
    }
}

/// Effect on the registry of registering every producer's descriptors
/// in order.
pub open spec fn describe_all_spec(reg: Seq<FamilyV>, ps: Seq<Producer>) -> Seq<FamilyV>
    decreases ps.len(),
{
    if ps.len() == 0 {
        reg
    } else {
        describe_all_spec(register_all_spec(reg, ps[0].descs_spec()), ps.skip(1))
    }
}

/// Effect on the registry of one full pass: every producer's writes
/// applied in registration order.
pub open spec fn pass_registry_spec(
    reg: Seq<FamilyV>,
    ps: Seq<Producer>,
    inputs: Seq<ProducerInput>,
) -> Seq<FamilyV>
    decreases ps.len(),
{
    if ps.len() == 0 {
        reg
    } else {
        pass_registry_spec(
            apply_writes_spec(reg, ps[0].writes_spec(inputs[0])),
            ps.skip(1),
            inputs.skip(1),
        )
    }
}

/// The error one full pass reports: the first producer error in
/// registration order, if any.
pub open spec fn first_err_spec(ps: Seq<Producer>, inputs: Seq<ProducerInput>) -> Option<
    CollectionErrorV,
>
    decreases ps.len(),
{
    if ps.len() == 0 {
        None
    } else {
        match ps[0].err_spec(inputs[0]) {
            Some(e) => Some(e),
            None => first_err_spec(ps.skip(1), inputs.skip(1)),
        }
    }
}

/// A family name present before registration is still present after
/// every producer has registered.
pub proof fn lemma_describe_all_monotone(reg: Seq<FamilyV>, ps: Seq<Producer>, name: Seq<char>)
    requires
        crate::registry::has_family(reg, name),
    ensures
        crate::registry::has_family(describe_all_spec(reg, ps), name),
    decreases ps.len(),
{
    if ps.len() > 0 {
        crate::registry::lemma_register_all_monotone(reg, ps[0].descs_spec(), name);
        lemma_describe_all_monotone(
            register_all_spec(reg, ps[0].descs_spec()),
            ps.skip(1),
            name,
        );
    }
}

/// After registration, every descriptor of every producer has a
/// family.
pub proof fn lemma_describe_all_covers(reg: Seq<FamilyV>, ps: Seq<Producer>)
    ensures
        forall|i: int, k: int|
            0 <= i < ps.len() && 0 <= k < (#[trigger] ps[i].descs_spec()).len()
                ==> crate::registry::has_family(
                describe_all_spec(reg, ps),
                (#[trigger] ps[i].descs_spec()[k]).name,
            ),
    decreases ps.len(),
{
    if ps.len() > 0 {
        let reg1 = register_all_spec(reg, ps[0].descs_spec());
        crate::registry::lemma_register_all_covers(reg, ps[0].descs_spec());
        lemma_describe_all_covers(reg1, ps.skip(1));
        assert forall|i: int, k: int|
            0 <= i < ps.len() && 0 <= k < (#[trigger] ps[i].descs_spec()).len()
                implies crate::registry::has_family(
            describe_all_spec(reg, ps),
            (#[trigger] ps[i].descs_spec()[k]).name,
        ) by {
            if i == 0 {
                lemma_describe_all_monotone(reg1, ps.skip(1), ps[0].descs_spec()[k].name);
            } else {
                assert(ps.skip(1)[i - 1] == ps[i]);
            }
        }
    }
}

/// Registering producers whose descriptors are all present already
/// changes nothing.
proof fn lemma_describe_all_noop(reg: Seq<FamilyV>, ps: Seq<Producer>)
    requires
        forall|i: int, k: int|
            0 <= i < ps.len() && 0 <= k < (#[trigger] ps[i].descs_spec()).len()
                ==> crate::registry::has_family(reg, (#[trigger] ps[i].descs_spec()[k]).name),
    ensures
        describe_all_spec(reg, ps) == reg,
    decreases ps.len(),
{
    if ps.len() > 0 {
        assert(forall|k: int|
            0 <= k < ps[0].descs_spec().len() ==> crate::registry::has_family(
                reg,
                (#[trigger] ps[0].descs_spec()[k]).name,
            ));
        crate::registry::lemma_register_all_noop(reg, ps[0].descs_spec());
        assert(forall|i: int, k: int|
            0 <= i < ps.skip(1).len() && 0 <= k < (#[trigger] ps.skip(1)[i].descs_spec()).len()
                ==> crate::registry::has_family(
                reg,
                (#[trigger] ps.skip(1)[i].descs_spec()[k]).name,
            ));
        lemma_describe_all_noop(reg, ps.skip(1));
    }
}

/// Describing is idempotent: registering every producer's descriptors
/// a second time leaves the registry exactly as one registration did —
/// repeated description never creates duplicate descriptors.
pub proof fn lemma_describe_all_idempotent(reg: Seq<FamilyV>, ps: Seq<Producer>)
    ensures
        describe_all_spec(describe_all_spec(reg, ps), ps) == describe_all_spec(reg, ps),
{
    lemma_describe_all_covers(reg, ps);
    lemma_describe_all_noop(describe_all_spec(reg, ps), ps);
}

/// The registry's descriptor set is stable under sampling: a full
/// pass — every producer's writes applied in order — never changes
/// the descriptors, no matter how many passes follow registration.
pub proof fn lemma_pass_preserves_descriptors(
    reg: Seq<FamilyV>,
    ps: Seq<Producer>,
    inputs: Seq<ProducerInput>,
)
    ensures
        desc_seq(pass_registry_spec(reg, ps, inputs)) == desc_seq(reg),
    decreases ps.len(),
{
    if ps.len() > 0 {
        crate::registry::lemma_writes_preserve_descs(reg, ps[0].writes_spec(inputs[0]));
        lemma_pass_preserves_descriptors(
            apply_writes_spec(reg, ps[0].writes_spec(inputs[0])),
            ps.skip(1),
            inputs.skip(1),
        );
    }
}

/// The orchestrator: the shared registry and the active producers.
pub struct Collector {
    /// The shared registry all producers publish into.
    pub registry: Registry,
    /// The active producers, in construction order.
    pub producers: Vec<Producer>,
}

impl Collector {
    /// The collector is well formed when its registry is.
    pub open spec fn wf(&self) -> bool {
        self.registry.wf()
    }

    /// An empty collector: no producers, an empty registry.
    pub fn new() -> (r: Collector)
        ensures
            r.wf(),
            r.registry@ == Seq::<FamilyV>::empty(),
            r.producers@.len() == 0,
    {
        Collector { registry: Registry::new(), producers: Vec::new() }
    }

    /// Instantiate exactly the enabled producers, in their fixed
    /// order, from the configuration and the setup-time readings.  A
    /// missing or failed setup reading is fatal: the collector is left
    /// unchanged and the forced error is returned.
    #[verifier::rlimit(60)]
    pub fn create_from_config(&mut self, config: &UserConfig, init: InitReadings) -> (r: Result<
        (),
        SetupError,
    >)
        ensures
            final(self).registry == old(self).registry,
            (match r {
                Ok(()) => {
                    &&& setup_err_spec(config.metrics, init) is None
                    &&& ({
                        let shapes = expected_shapes(
                            config.metrics,
                            hostname_of(config.metrics, init),
                            arch_of(config.metrics, init),
                            initial_cpu_of(config.metrics, init),
                        );
                        &&& final(self).producers@.len() == old(self).producers@.len()
                            + shapes.len()
                        &&& (forall|k: int|
                            0 <= k < old(self).producers@.len() ==> final(self).producers@[k]
                                == old(self).producers@[k])
                        &&& (forall|k: int|
                            0 <= k < shapes.len() ==> has_shape(
                                final(self).producers@[old(self).producers@.len() + k],
                                #[trigger] shapes[k],
                            ))
                    })
                },
                Err(e) => setup_err_spec(config.metrics, init) == Some(e@) && final(self).producers
                    == old(self).producers,
            }),
    {
        let m = &config.metrics;
        let ghost initial = initial_cpu_of(config.metrics, init);
        let ghost hostname = hostname_of(config.metrics, init);
        let ghost arch = arch_of(config.metrics, init);
        let InitReadings { node_info, cpu_stat, systemd } = init;
        // Resolve the node-information reading first: when its domain
        // is enabled, its absence or failure is fatal.
        let info_opt: Option<NodeInfo> = if m.node_info.enabled {
            match node_info {
                None => {
                    return Err(SetupError::MissingNodeInfo);
                },
                Some(Err(e)) => {
                    return Err(SetupError::NodeInfo { context: e.context });
                },
                Some(Ok(info)) => Some(info),
            }
        } else {
            None
        };
        let cpu_on = m.cpu_seconds.enabled || m.loadavg.enabled;
        // The CPU snapshot next, under the same rule.
        let cpu_raw: Option<Vec<RawCpuTicks>> = if cpu_on {
            match cpu_stat {
                None => {
                    return Err(SetupError::MissingCpuSnapshot);
                },
                Some(Err(e)) => {
                    return Err(SetupError::CpuSnapshot { context: e.context });
                },
                Some(Ok(raw)) => Some(raw),
            }
        } else {
            None
        };
        if m.systemd_unit_state.enabled {
            match &systemd {
                None => {
                    return Err(SetupError::MissingSystemdSession);
                },
                Some(Err(e)) => {
                    return Err(SetupError::Systemd { context: e.context.clone() });
                },
                Some(Ok(())) => (),
            }
        }
        let mut fresh: Vec<Producer> = Vec::new();
        match info_opt {
            Some(info) => {
                proof {
                    assert(hostname == info.hostname@);
                    assert(arch == info.arch@);
                }
                fresh.push(Producer::NodeInfo(NodeInfoCollector::new(info)));
            },
            None => (),
        }
        proof {
            let s = shapes_node_info(config.metrics, hostname, arch);
            assert(fresh@.len() == s.len());
            assert(forall|k: int| 0 <= k < s.len() ==> has_shape(#[trigger] fresh@[k], s[k]));
        }
        if m.node_uptime.enabled {
            fresh.push(Producer::NodeUptime(NodeUptimeCollector {  }));
        }
        proof {
            let s = shapes_uptime(config.metrics, hostname, arch);
            assert(fresh@.len() == s.len());
            assert(forall|k: int| 0 <= k < s.len() ==> has_shape(#[trigger] fresh@[k], s[k]));
        }
        match cpu_raw {
            Some(raw) => {
                let mut options: Vec<(String, String)> = Vec::new();
                if m.loadavg.enabled {
                    options.push(("load_avg_enabled".to_owned(), "true".to_owned()));
                }
                let c = CpuStatsCollector::new(&options, &raw);
                proof {
                    if m.loadavg.enabled {
                        assert(options.deep_view() =~~= seq![("load_avg_enabled"@, "true"@)]);
                        assert(crate::strutil::opts_get_spec(
                            options.deep_view(),
                            "load_avg_enabled"@,
                        ) == Some("true"@));
                    } else {
                        assert(options.deep_view() =~~= Seq::<(Seq<char>, Seq<char>)>::empty());
                    }
                    assert(c.load_avg_enabled == m.loadavg.enabled);
                    assert(initial == raw@);
                }
                fresh.push(Producer::Cpu(c));
            },
            None => (),
        }
        proof {
            let s = shapes_cpu(config.metrics, hostname, arch, initial);
            assert(fresh@.len() == s.len());
            assert(forall|k: int| 0 <= k < s.len() ==> has_shape(#[trigger] fresh@[k], s[k]));
        }
        if m.memory_used.enabled {
            fresh.push(Producer::Memory(MemoryStatsCollector {  }));
        }
        proof {
            let s = shapes_memory(config.metrics, hostname, arch, initial);
            assert(fresh@.len() == s.len());
            assert(forall|k: int| 0 <= k < s.len() ==> has_shape(#[trigger] fresh@[k], s[k]));
        }
        if m.systemd_unit_state.enabled {
            fresh.push(
                Producer::Systemd(
                    SystemdUnitStateCollector {
                        units: clone_string_vec(&m.systemd_unit_state.units),
                        cache: UnitCache::new(),
                    },
                ),
            );
        }
        proof {
            let s = shapes_systemd(config.metrics, hostname, arch, initial);
            assert(fresh@.len() == s.len());
            assert(forall|k: int| 0 <= k < s.len() ==> has_shape(#[trigger] fresh@[k], s[k]));
        }
        if m.network_throughput.enabled {
            fresh.push(
                Producer::Network(
                    NetworkStatsCollector {
                        interfaces: clone_string_vec(&m.network_throughput.interfaces),
                    },
                ),
            );
        }
        proof {
            let s = shapes_network(config.metrics, hostname, arch, initial);
            assert(fresh@.len() == s.len());
            assert(forall|k: int| 0 <= k < s.len() ==> has_shape(#[trigger] fresh@[k], s[k]));
        }
        if m.disk_usage.enabled {
            fresh.push(
                Producer::Filesystem(
                    FilesystemStatsCollector {
                        mountpoints: clone_string_vec(&m.disk_usage.mountpoints),
                    },
                ),
            );
        }
        proof {
            let s = shapes_filesystem(config.metrics, hostname, arch, initial);
            assert(fresh@.len() == s.len());
            assert(forall|k: int| 0 <= k < s.len() ==> has_shape(#[trigger] fresh@[k], s[k]));
        }
        if m.pressure.enabled {
            fresh.push(Producer::Pressure(PressureCollector {  }));
        }
        proof {
            let s = shapes_pressure(config.metrics, hostname, arch, initial);
            assert(fresh@.len() == s.len());
            assert(forall|k: int| 0 <= k < s.len() ==> has_shape(#[trigger] fresh@[k], s[k]));
        }
        if m.disk_stats.enabled {
            fresh.push(
                Producer::Disk(
                    DiskStatsCollector {
                        mountpoints: clone_string_vec(&m.disk_stats.mountpoints),
                    },
                ),
            );
        }
        let ghost shapes = expected_shapes(config.metrics, hostname, arch, initial);
        proof {
            assert(fresh@.len() == shapes.len());
            assert(forall|k: int|
                0 <= k < shapes.len() ==> has_shape(#[trigger] fresh@[k], shapes[k]));
        }
        let ghost before = self.producers@;
        let n = fresh.len();
        let mut idx: usize = 0;
        while idx < n
            invariant
                0 <= idx <= n,
                fresh@.len() == n - idx,
                n == shapes.len(),
                self.producers@.len() == before.len() + idx,
                forall|k: int| 0 <= k < before.len() ==> self.producers@[k] == before[k],
                forall|k: int|
                    0 <= k < idx ==> has_shape(
                        self.producers@[before.len() + k],
                        #[trigger] shapes[k],
                    ),
                forall|k: int|
                    0 <= k < fresh@.len() ==> has_shape(#[trigger] fresh@[k], shapes[k + idx]),
                self.registry == old(self).registry,
            decreases n - idx,
        {
            let ghost prev_fresh = fresh@;
            let p = fresh.remove(0);
            proof {
                assert(has_shape(p, shapes[idx as int]));
                assert forall|k: int| 0 <= k < fresh@.len() implies has_shape(
                    #[trigger] fresh@[k],
                    shapes[k + idx + 1],
                ) by {
                    assert(fresh@[k] == prev_fresh[k + 1]);
                }
            }
            self.producers.push(p);
            idx += 1;
        }
        Ok(())
    }

    /// Register every producer's descriptors against the shared
    /// registry, in construction order.  Must run after all producers
    /// are constructed and before the first pass.
    pub fn register(&mut self) -> (r: Result<(), SetupError>)
        requires
            old(self).wf(),
        ensures
            final(self).wf(),
            r is Ok,
            final(self).producers@ == old(self).producers@,
            final(self).registry@ == describe_all_spec(old(self).registry@, old(self).producers@),
    {
        let ghost ps = self.producers@;
        let ghost reg0 = self.registry@;
        let n = self.producers.len();
        proof {
            assert(ps.skip(0) =~= ps);
        }
        let mut i: usize = 0;
        while i < n
            invariant
                0 <= i <= n,
                n == self.producers@.len(),
                self.producers@ == ps,
                self.wf(),
                describe_all_spec(reg0, ps) == describe_all_spec(
                    self.registry@,
                    ps.skip(i as int),
                ),
            decreases n - i,
        {
            proof {
                assert(ps.skip(i as int)[0] == ps[i as int]);
                assert(ps.skip(i as int).skip(1) =~= ps.skip(i + 1));
            }
            Producer::register(&self.producers[i], &mut self.registry);
            i += 1;
        }
        proof {
            assert(ps.skip(n as int) =~= Seq::<Producer>::empty());
        }
        Ok(())
    }

    /// Run one collection pass: hand every producer its reading,
    /// apply its writes to the registry in registration order, and
    /// report the first error in that order.  Every producer runs —
    /// a failing producer never stops its siblings from updating
    /// their own series and state — and the registry's descriptor set
    /// is unchanged by the pass.
    pub fn collect(&mut self, inputs: Vec<ProducerInput>) -> (r: Result<(), CollectionError>)
        requires
            old(self).wf(),
            inputs@.len() == old(self).producers@.len(),
            forall|k: int|
                0 <= k < inputs@.len() ==> (#[trigger] old(self).producers@[k]).kind_matches(
                    &inputs@[k],
                ),
        ensures
            final(self).wf(),
            final(self).producers@.len() == old(self).producers@.len(),
            forall|k: int|
                0 <= k < inputs@.len() ==> Producer::post_spec(
                    old(self).producers@[k],
                    final(self).producers@[k],
                    #[trigger] inputs@[k],
                ),
            final(self).registry@ == pass_registry_spec(
                old(self).registry@,
                old(self).producers@,
                inputs@,
            ),
            desc_seq(final(self).registry@) == desc_seq(old(self).registry@),
            (match r {
                Ok(()) => first_err_spec(old(self).producers@, inputs@) is None,
                Err(e) => first_err_spec(old(self).producers@, inputs@) == Some(e@),
            }),
    {
        let ghost ps0 = self.producers@;
        let ghost inp0 = inputs@;
        let ghost reg0 = self.registry@;
        let n = self.producers.len();
        let mut rem = inputs;
        let mut first_err: Option<CollectionError> = None;
        proof {
            assert(ps0.skip(0) =~= ps0);
            assert(inp0.skip(0) =~= inp0);
        }
        let mut k: usize = 0;
        while k < n
            invariant
                0 <= k <= n,
                n == self.producers@.len(),
                n == ps0.len(),
                n == inp0.len(),
                rem@.len() == n - k,
                forall|j: int| 0 <= j < rem@.len() ==> (#[trigger] rem@[j]) == inp0[j + k],
                forall|j: int|
                    0 <= j < n ==> (#[trigger] ps0[j]).kind_matches(&inp0[j]),
                forall|j: int|
                    0 <= j < k ==> Producer::post_spec(
                        ps0[j],
                        self.producers@[j],
                        #[trigger] inp0[j],
                    ),
                forall|j: int| k <= j < n ==> (#[trigger] self.producers@[j]) == ps0[j],
                self.wf(),
                pass_registry_spec(reg0, ps0, inp0) == pass_registry_spec(
                    self.registry@,
                    ps0.skip(k as int),
                    inp0.skip(k as int),
                ),
                desc_seq(self.registry@) == desc_seq(reg0),
                (match first_err {
                    None => first_err_spec(ps0, inp0) == first_err_spec(
                        ps0.skip(k as int),
                        inp0.skip(k as int),
                    ),
                    Some(e) => first_err_spec(ps0, inp0) == Some(e@),
                }),
            decreases n - k,
        {
            proof {
                assert(ps0.skip(k as int)[0] == ps0[k as int]);
                assert(ps0.skip(k as int).skip(1) =~= ps0.skip(k + 1));
                assert(inp0.skip(k as int)[0] == inp0[k as int]);
                assert(inp0.skip(k as int).skip(1) =~= inp0.skip(k + 1));
            }
            let ghost prev_rem = rem@;
            let input_k = rem.remove(0);
            proof {
                assert(input_k == inp0[k as int]);
                assert forall|j: int| 0 <= j < rem@.len() implies (#[trigger] rem@[j]) == inp0[j + k
                    + 1] by {
                    assert(rem@[j] == prev_rem[j + 1]);
                }
            }
            let ghost reg_before = self.registry@;
            let ghost producers_before = self.producers@;
            let pr = &mut self.producers[k];
            proof {
                assert(*pr == ps0[k as int]);
            }
            let (ws, res) = pr.collect(input_k);
            proof {
                assert(self.producers@.len() == producers_before.len());
                assert forall|j: int|
                    0 <= j < n && j != k implies (#[trigger] self.producers@[j])
                    == producers_before[j] by {
                }
            }
            self.registry.apply_writes(ws);
            proof {
                assert(self.registry@ == apply_writes_spec(
                    reg_before,
                    ps0[k as int].writes_spec(inp0[k as int]),
                ));
                crate::registry::lemma_writes_preserve_descs(
                    reg_before,
                    ps0[k as int].writes_spec(inp0[k as int]),
                );
            }
            match res {
                Ok(()) => (),
                Err(e) => {
                    if first_err.is_none() {
                        first_err = Some(e);
                    }
                },
            }
            k += 1;
        }
        proof {
            assert(ps0.skip(n as int) =~= Seq::<Producer>::empty());
            assert(inp0.skip(n as int) =~= Seq::<ProducerInput>::empty());
        }
        match first_err {
            None => Ok(()),
            Some(e) => Err(e),
        }
    }
}

} // verus!
