//! End-to-end tests for the orchestrator: setup from configuration,
//! registration, collection passes, partial failure.

use litemon::collector::Collector;
use litemon::collector::InitReadings;
use litemon::collector::SetupError;
use litemon::config::MetricsConfig;
use litemon::config::UserConfig;
use litemon::cpu::LoadAverages;
use litemon::cpu::RawCpuTicks;
use litemon::info::NodeInfo;
use litemon::memory::MemInfoReading;
use litemon::producer::CollectionError;
use litemon::producer::CpuInput;
use litemon::producer::CpuStatsCollector;
use litemon::producer::PressureCollector;
use litemon::producer::PressureInput;
use litemon::producer::ProducerInput;
use litemon::producer::ReadError;
use litemon::pressure::SystemPressure;
use litemon::registry::MetricValue;
use litemon::registry::Registry;

fn ticks(user: u64, idle: u64) -> RawCpuTicks {
    RawCpuTicks {
        user,
        nice: 0,
        system: 0,
        idle,
        iowait: None,
        irq: None,
        softirq: None,
        steal: None,
    }
}

fn meminfo() -> MemInfoReading {
    MemInfoReading {
        mem_total: 1000,
        mem_free: 300,
        mem_available: Some(400),
        buffers: 0,
        cached: 0,
        swap_total: 0,
        swap_free: 0,
    }
}

fn node_info() -> NodeInfo {
    NodeInfo {
        hostname: "testhost".to_string(),
        arch: "x86_64".to_string(),
        uptime_secs: 0,
    }
}

/// Configuration enabling only memory and CPU usage (no load average,
/// no other domain).
fn memory_and_cpu_config() -> UserConfig {
    let mut m = MetricsConfig::default();
    m.cpu_seconds.enabled = true;
    m.loadavg.enabled = false;
    m.memory_used.enabled = true;
    UserConfig { metrics: m }
}

/// The memory-and-CPU configuration with the two node domains enabled
/// on top, for tests that exercise them.
fn with_node_domains_config() -> UserConfig {
    let mut config = memory_and_cpu_config();
    config.metrics.node_info.enabled = true;
    config.metrics.node_uptime.enabled = true;
    config
}

fn setup_memory_and_cpu() -> Collector {
    let config = memory_and_cpu_config();
    let mut collector = Collector::new();
    collector
        .create_from_config(
            &config,
            InitReadings {
                node_info: None,
                cpu_stat: Some(Ok(vec![ticks(100, 100)])),
                systemd: None,
            },
        )
        .unwrap();
    collector.register().unwrap();
    collector
}

fn setup_with_node_domains() -> Collector {
    let config = with_node_domains_config();
    let mut collector = Collector::new();
    collector
        .create_from_config(
            &config,
            InitReadings {
                node_info: Some(Ok(node_info())),
                cpu_stat: Some(Ok(vec![ticks(100, 100)])),
                systemd: None,
            },
        )
        .unwrap();
    collector.register().unwrap();
    collector
}

fn cpu_input() -> ProducerInput {
    ProducerInput::Cpu(CpuInput {
        load: Ok(LoadAverages {
            one: 0,
            five: 0,
            fifteen: 0,
        }),
        stat: Ok(vec![ticks(200, 200)]),
    })
}

/// Inputs for the memory-and-CPU setup: producers are CPU then memory.
fn pass_inputs_mem_cpu(mem: Result<MemInfoReading, ReadError>) -> Vec<ProducerInput> {
    vec![cpu_input(), ProducerInput::Memory(mem)]
}

/// Inputs for the node-domain setup: node info, uptime, CPU, memory.
fn pass_inputs_full(
    uptime: Result<u64, ReadError>,
    mem: Result<MemInfoReading, ReadError>,
) -> Vec<ProducerInput> {
    vec![
        ProducerInput::NodeInfo,
        ProducerInput::NodeUptime(uptime),
        cpu_input(),
        ProducerInput::Memory(mem),
    ]
}

#[test]
fn memory_and_cpu_config_yields_only_those_families() {
    // Enabling only memory and CPU (no load average) yields a registry
    // containing only the two CPU usage families and the memory
    // percentage family — nothing else, in particular no load-average
    // family and no node family (those domains default to disabled).
    let collector = setup_memory_and_cpu();
    let reg = &collector.registry;
    assert_eq!(reg.family_count(), 3);
    assert!(reg.has_family_named("litemon_cpu_usage_overall"));
    assert!(reg.has_family_named("litemon_cpu_usage_per_core"));
    assert!(reg.has_family_named("litemon_mem_used_percentage"));
    assert!(!reg.has_family_named("litemon_load_avg_1m"));
    assert!(!reg.has_family_named("litemon_load_avg_5m"));
    assert!(!reg.has_family_named("litemon_load_avg_15m"));
    assert!(!reg.has_family_named("litemon_node_info"));
    assert!(!reg.has_family_named("litemon_node_uptime"));
}

#[test]
fn node_domains_register_their_families_when_enabled() {
    let collector = setup_with_node_domains();
    let reg = &collector.registry;
    assert_eq!(reg.family_count(), 5);
    assert!(reg.has_family_named("litemon_node_info"));
    assert!(reg.has_family_named("litemon_node_uptime"));
}

#[test]
fn descriptor_set_stable_across_passes() {
    // `describe` before any sample fixes the descriptor set; repeated
    // registration and any number of passes leave it unchanged.
    let mut collector = setup_with_node_domains();
    assert_eq!(collector.registry.family_count(), 5);
    // registering again must not create duplicates
    collector.register().unwrap();
    assert_eq!(collector.registry.family_count(), 5);
    for _ in 0..3 {
        let _ = collector.collect(pass_inputs_full(Ok(42), Ok(meminfo())));
        assert_eq!(collector.registry.family_count(), 5);
        assert!(!collector.registry.has_family_named("litemon_load_avg_1m"));
    }
}

#[test]
fn successful_pass_updates_values() {
    let mut collector = setup_with_node_domains();
    collector
        .collect(pass_inputs_full(Ok(12345), Ok(meminfo())))
        .unwrap();
    let reg = &collector.registry;
    assert_eq!(
        reg.get_value(
            "litemon_node_info",
            &vec!["testhost".to_string(), "x86_64".to_string()]
        ),
        Some(MetricValue { num: 1, den: 1 })
    );
    assert_eq!(
        reg.get_value("litemon_node_uptime", &Vec::new()),
        Some(MetricValue { num: 12345, den: 1 })
    );
    // ticks went (100,200) -> (200,400): 100 busy of 200 elapsed
    assert_eq!(
        reg.get_value("litemon_cpu_usage_overall", &Vec::new()),
        Some(MetricValue { num: 100, den: 200 })
    );
    assert_eq!(
        reg.get_value("litemon_cpu_usage_per_core", &vec!["0".to_string()]),
        Some(MetricValue { num: 100, den: 200 })
    );
    assert_eq!(
        reg.get_value("litemon_mem_used_percentage", &Vec::new()),
        Some(MetricValue {
            num: 600,
            den: 1000
        })
    );
}

#[test]
fn partial_failure_updates_siblings_and_reports_first_error() {
    // Producers in order: node info, uptime, CPU, memory.  The second
    // one fails; the first, third and fourth still update their
    // values, and the pass reports exactly the second one's error.
    let mut collector = setup_with_node_domains();
    let err = collector.collect(pass_inputs_full(
        Err(ReadError {
            context: "reading uptime".to_string(),
        }),
        Ok(meminfo()),
    ));
    assert_eq!(
        err,
        Err(CollectionError::Read {
            context: "reading uptime".to_string()
        })
    );
    let reg = &collector.registry;
    // sibling values are fresh
    assert_eq!(
        reg.get_value(
            "litemon_node_info",
            &vec!["testhost".to_string(), "x86_64".to_string()]
        ),
        Some(MetricValue { num: 1, den: 1 })
    );
    assert_eq!(
        reg.get_value("litemon_cpu_usage_overall", &Vec::new()),
        Some(MetricValue { num: 100, den: 200 })
    );
    assert_eq!(
        reg.get_value("litemon_mem_used_percentage", &Vec::new()),
        Some(MetricValue {
            num: 600,
            den: 1000
        })
    );
    // the failed producer's series was never created
    assert_eq!(reg.get_value("litemon_node_uptime", &Vec::new()), None);
}

#[test]
fn first_error_in_registration_order_wins() {
    // Both the uptime and the memory read fail: the earlier producer's
    // error is the one reported.
    let mut collector = setup_with_node_domains();
    let err = collector.collect(pass_inputs_full(
        Err(ReadError {
            context: "uptime failed".to_string(),
        }),
        Err(ReadError {
            context: "meminfo failed".to_string(),
        }),
    ));
    assert_eq!(
        err,
        Err(CollectionError::Read {
            context: "uptime failed".to_string()
        })
    );
}

#[test]
fn failed_producer_keeps_previous_value() {
    // A read failure leaves the prior series value untouched.
    let mut collector = setup_with_node_domains();
    collector
        .collect(pass_inputs_full(Ok(100), Ok(meminfo())))
        .unwrap();
    let err = collector.collect(pass_inputs_full(
        Err(ReadError {
            context: "flaky".to_string(),
        }),
        Ok(meminfo()),
    ));
    assert!(err.is_err());
    assert_eq!(
        collector.registry.get_value("litemon_node_uptime", &Vec::new()),
        Some(MetricValue { num: 100, den: 1 })
    );
}

#[test]
fn setup_requires_node_info_when_enabled() {
    let config = with_node_domains_config();
    let mut collector = Collector::new();
    let r = collector.create_from_config(
        &config,
        InitReadings {
            node_info: None,
            cpu_stat: Some(Ok(vec![ticks(0, 0)])),
            systemd: None,
        },
    );
    assert_eq!(r, Err(SetupError::MissingNodeInfo));
    let r = collector.create_from_config(
        &config,
        InitReadings {
            node_info: Some(Err(ReadError {
                context: "uname failed".to_string(),
            })),
            cpu_stat: Some(Ok(vec![ticks(0, 0)])),
            systemd: None,
        },
    );
    assert_eq!(
        r,
        Err(SetupError::NodeInfo {
            context: "uname failed".to_string()
        })
    );
}

#[test]
fn setup_requires_cpu_snapshot_when_enabled() {
    let mut collector = Collector::new();
    let r = collector.create_from_config(
        &UserConfig::default(),
        InitReadings {
            node_info: None,
            cpu_stat: None,
            systemd: None,
        },
    );
    assert_eq!(r, Err(SetupError::MissingCpuSnapshot));
    let r = collector.create_from_config(
        &UserConfig::default(),
        InitReadings {
            node_info: None,
            cpu_stat: Some(Err(ReadError {
                context: "no /proc".to_string(),
            })),
            systemd: None,
        },
    );
    assert_eq!(
        r,
        Err(SetupError::CpuSnapshot {
            context: "no /proc".to_string()
        })
    );
}

#[test]
fn pressure_reports_first_failure_in_io_cpu_memory_order() {
    let producer = PressureCollector {};
    let ok = SystemPressure {
        avg10: 0,
        avg60: 0,
        avg300: 0,
        total: 5,
    };
    let (writes, res) = producer.collect(PressureInput {
        io: Err(ReadError {
            context: "io gone".to_string(),
        }),
        cpu: Err(ReadError {
            context: "cpu gone".to_string(),
        }),
        mem: Ok(ok),
    });
    assert!(writes.is_empty());
    assert_eq!(
        res,
        Err(CollectionError::Read {
            context: "io gone".to_string()
        })
    );
}

#[test]
fn pressure_publishes_totals() {
    let producer = PressureCollector {};
    let rec = |total: u64| SystemPressure {
        avg10: 1,
        avg60: 2,
        avg300: 3,
        total,
    };
    let mut reg = Registry::new();
    producer.register(&mut reg);
    let (writes, res) = producer.collect(PressureInput {
        io: Ok(rec(11)),
        cpu: Ok(rec(22)),
        mem: Ok(rec(33)),
    });
    assert!(res.is_ok());
    reg.apply_writes(writes);
    assert_eq!(
        reg.get_value("litemon_io_pressure_total", &Vec::new()),
        Some(MetricValue { num: 11, den: 1 })
    );
    assert_eq!(
        reg.get_value("litemon_cpu_pressure_total", &Vec::new()),
        Some(MetricValue { num: 22, den: 1 })
    );
    assert_eq!(
        reg.get_value("litemon_memory_pressure_total", &Vec::new()),
        Some(MetricValue { num: 33, den: 1 })
    );
}

#[test]
fn load_averages_published_in_hundredths_when_enabled() {
    let options = vec![(
        "load_avg_enabled".to_string(),
        "true".to_string(),
    )];
    let mut producer = CpuStatsCollector::new(&options, &vec![ticks(0, 0)]);
    assert!(producer.load_avg_enabled);
    let mut reg = Registry::new();
    producer.register(&mut reg);
    assert!(reg.has_family_named("litemon_load_avg_1m"));
    let (writes, res) = producer.collect(CpuInput {
        load: Ok(LoadAverages {
            one: 152,
            five: 41,
            fifteen: 7,
        }),
        stat: Ok(vec![ticks(10, 10)]),
    });
    assert!(res.is_ok());
    reg.apply_writes(writes);
    // 1.52 carried exactly as 152/100
    assert_eq!(
        reg.get_value("litemon_load_avg_1m", &Vec::new()),
        Some(MetricValue { num: 152, den: 100 })
    );
    assert_eq!(
        reg.get_value("litemon_load_avg_15m", &Vec::new()),
        Some(MetricValue { num: 7, den: 100 })
    );
}

#[test]
fn cpu_load_failure_aborts_before_usage() {
    let mut producer = CpuStatsCollector::new(&Vec::new(), &vec![ticks(0, 0)]);
    let (writes, res) = producer.collect(CpuInput {
        load: Err(ReadError {
            context: "loadavg gone".to_string(),
        }),
        stat: Ok(vec![ticks(10, 10)]),
    });
    assert!(writes.is_empty());
    assert_eq!(
        res,
        Err(CollectionError::Read {
            context: "loadavg gone".to_string()
        })
    );
}
