//! Tests for the typed configuration and its defaulting rules.

use litemon::config::MetricsConfig;
use litemon::config::RawCpuSecondsNode;
use litemon::config::RawListNode;
use litemon::config::RawMetricsConfig;
use litemon::config::RawToggleNode;
use litemon::config::UserConfig;

fn empty_raw() -> RawMetricsConfig {
    RawMetricsConfig {
        node_info: None,
        node_uptime: None,
        cpu_seconds: None,
        loadavg: None,
        memory_used: None,
        systemd_unit_state: None,
        network_throughput: None,
        disk_usage: None,
        pressure: None,
        disk_stats: None,
    }
}

#[test]
fn defaults_enable_cpu_loadavg_memory() {
    let config = UserConfig::default();
    let m = &config.metrics;
    assert!(!m.node_info.enabled);
    assert!(!m.node_uptime.enabled);
    assert!(m.cpu_seconds.enabled);
    assert_eq!(m.cpu_seconds.period_ms, 200);
    assert!(m.loadavg.enabled);
    assert!(m.memory_used.enabled);
    assert!(!m.systemd_unit_state.enabled);
    assert!(m.systemd_unit_state.units.is_empty());
    assert!(!m.network_throughput.enabled);
    assert!(!m.disk_usage.enabled);
    assert!(!m.pressure.enabled);
    assert!(!m.disk_stats.enabled);
}

#[test]
fn absent_nodes_keep_defaults() {
    let m = MetricsConfig::from_raw(empty_raw());
    assert_eq!(m, MetricsConfig::default());
}

#[test]
fn present_node_without_enabled_counts_as_disabled() {
    // A `cpu_seconds` node that omits `enabled` disables the domain,
    // unlike an absent node, which keeps the default (enabled).
    let mut raw = empty_raw();
    raw.cpu_seconds = Some(RawCpuSecondsNode {
        enabled: None,
        period_ms: None,
    });
    let m = MetricsConfig::from_raw(raw);
    assert!(!m.cpu_seconds.enabled);
    // and the period defaults to 1000 ms when the node is present
    assert_eq!(m.cpu_seconds.period_ms, 1000);
}

#[test]
fn list_nodes_carry_their_items() {
    let mut raw = empty_raw();
    raw.systemd_unit_state = Some(RawListNode {
        enabled: Some(true),
        items: vec!["valkey.service".to_string(), "postgresql.service".to_string()],
    });
    raw.loadavg = Some(RawToggleNode {
        enabled: Some(false),
    });
    raw.node_uptime = Some(RawToggleNode {
        enabled: Some(true),
    });
    let m = MetricsConfig::from_raw(raw);
    assert!(m.node_uptime.enabled);
    assert!(!m.node_info.enabled);
    assert!(m.systemd_unit_state.enabled);
    assert_eq!(
        m.systemd_unit_state.units,
        vec!["valkey.service", "postgresql.service"]
    );
    assert!(!m.loadavg.enabled);
}
