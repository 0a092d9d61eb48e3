//! Tests for the snapshot-diff arithmetic: deltas, CPU ratios, memory
//! percentages.

use litemon::cpu::CpuTime;
use litemon::cpu::CpuUsage;
use litemon::cpu::RawCpuTicks;
use litemon::delta::counter_delta;
use litemon::delta::sat_mul;
use litemon::memory::get_memory_used_percentage;
use litemon::memory::MemInfoReading;
use litemon::memory::MemoryStats;
use litemon::registry::MetricValue;

#[test]
fn counter_delta_increase() {
    // A raw counter growing 1000 -> 1500 publishes an increment of
    // 500, not 1500.
    assert_eq!(counter_delta(1500, 1000), 500);
}

#[test]
fn counter_delta_reset_clamps_to_zero() {
    // A raw sequence 5000 -> 200 (reboot) publishes no negative
    // increment: the clamp-to-zero policy yields 0.
    assert_eq!(counter_delta(200, 5000), 0);
    // And the policy is deterministic: the same pair always gives 0.
    assert_eq!(counter_delta(200, 5000), 0);
}

#[test]
fn counter_delta_equal_values() {
    assert_eq!(counter_delta(42, 42), 0);
}

#[test]
fn cpu_time_field_ops() {
    let a = CpuTime {
        idle_ticks: 10,
        total_ticks: 100,
    };
    let b = CpuTime {
        idle_ticks: 5,
        total_ticks: 50,
    };
    assert_eq!(
        a.saturating_add(b),
        CpuTime {
            idle_ticks: 15,
            total_ticks: 150
        }
    );
    // clamped field-wise difference
    assert_eq!(
        a.delta(b),
        CpuTime {
            idle_ticks: 5,
            total_ticks: 50
        }
    );
    assert_eq!(
        b.delta(a),
        CpuTime {
            idle_ticks: 0,
            total_ticks: 0
        }
    );
}

#[test]
fn sat_mul_caps_at_max() {
    assert_eq!(sat_mul(3, 7), 21);
    assert_eq!(sat_mul(u64::MAX, 2), u64::MAX);
}

fn ticks(user: u64, idle: u64) -> RawCpuTicks {
    RawCpuTicks {
        user,
        nice: 0,
        system: 0,
        idle,
        iowait: None,
        irq: None,
        softirq: None,
        steal: None,
    }
}

#[test]
fn cpu_usage_ratio_exact() {
    // Core 0: 100 busy ticks and 100 idle ticks elapsed.
    let prev = CpuUsage::from_raw(&vec![ticks(100, 100)]);
    let now = CpuUsage::from_raw(&vec![ticks(200, 200)]);
    let overall = now.percentage_all_cores(&prev);
    // total delta 200, idle delta 100 -> busy 100 of 200.
    assert_eq!(overall, MetricValue { num: 100, den: 200 });
    assert!(overall.num <= overall.den);
}

#[test]
fn cpu_usage_zero_elapsed_is_zero() {
    // Two identical snapshots: no elapsed ticks must yield 0, not a
    // division fault.
    let prev = CpuUsage::from_raw(&vec![ticks(100, 100)]);
    let now = CpuUsage::from_raw(&vec![ticks(100, 100)]);
    assert_eq!(
        now.percentage_all_cores(&prev),
        MetricValue { num: 0, den: 1 }
    );
}

#[test]
fn cpu_usage_counter_reset_clamps() {
    // Raw ticks went backwards (reboot): both deltas clamp to zero
    // and the ratio is 0, never negative.
    let prev = CpuUsage::from_raw(&vec![ticks(5000, 5000)]);
    let now = CpuUsage::from_raw(&vec![ticks(200, 100)]);
    assert_eq!(
        now.percentage_all_cores(&prev),
        MetricValue { num: 0, den: 1 }
    );
}

#[test]
fn cpu_from_raw_aggregates_fields() {
    let raw = RawCpuTicks {
        user: 10,
        nice: 20,
        system: 30,
        idle: 40,
        iowait: Some(5),
        irq: Some(1),
        softirq: Some(2),
        steal: Some(3),
    };
    let usage = CpuUsage::from_raw(&vec![raw]);
    assert_eq!(usage.per_core_ticks.len(), 1);
    // total = 10+20+30+40+5+1+2+3, idle = 40+5
    assert_eq!(
        usage.per_core_ticks[0],
        CpuTime {
            idle_ticks: 45,
            total_ticks: 111
        }
    );
    assert_eq!(usage.total_ticks, usage.per_core_ticks[0]);
}

#[test]
fn cpu_per_core_pairs_by_index() {
    let prev = CpuUsage::from_raw(&vec![ticks(100, 100), ticks(0, 100)]);
    let now = CpuUsage::from_raw(&vec![ticks(300, 100), ticks(0, 200), ticks(9, 9)]);
    let per_core = now.percentage_per_core(&prev);
    // zipped: only the two cores present in both snapshots
    assert_eq!(per_core.len(), 2);
    // core 0: total delta 200, idle delta 0 -> 200/200
    assert_eq!(per_core[0], MetricValue { num: 200, den: 200 });
    // core 1: total delta 100, idle delta 100 -> 0/100
    assert_eq!(per_core[1], MetricValue { num: 0, den: 100 });
}

#[test]
fn memory_percentage_with_available() {
    let m = MemInfoReading {
        mem_total: 1000,
        mem_free: 300,
        mem_available: Some(400),
        buffers: 0,
        cached: 0,
        swap_total: 0,
        swap_free: 0,
    };
    assert_eq!(
        get_memory_used_percentage(m),
        MetricValue {
            num: 600,
            den: 1000
        }
    );
}

#[test]
fn memory_percentage_fallback_without_available() {
    // Old kernels: available = free + buffers + cached.
    let m = MemInfoReading {
        mem_total: 1000,
        mem_free: 100,
        mem_available: None,
        buffers: 50,
        cached: 50,
        swap_total: 0,
        swap_free: 0,
    };
    assert_eq!(
        get_memory_used_percentage(m),
        MetricValue {
            num: 800,
            den: 1000
        }
    );
}

#[test]
fn memory_stats_fields() {
    let m = MemInfoReading {
        mem_total: 2000,
        mem_free: 500,
        mem_available: Some(800),
        buffers: 100,
        cached: 200,
        swap_total: 1000,
        swap_free: 750,
    };
    let stats = MemoryStats::from_meminfo(m);
    assert_eq!(stats.total_kb, 2000);
    assert_eq!(stats.available_kb, 800);
    assert_eq!(stats.used_kb, 1200);
    assert_eq!(
        stats.used_percent,
        MetricValue {
            num: 1200,
            den: 2000
        }
    );
    assert_eq!(stats.swap_used_kb, 250);
    assert_eq!(
        stats.swap_used_percent,
        MetricValue {
            num: 250,
            den: 1000
        }
    );
}

#[test]
fn memory_zero_total_is_zero_ratio() {
    let m = MemInfoReading {
        mem_total: 0,
        mem_free: 0,
        mem_available: Some(0),
        buffers: 0,
        cached: 0,
        swap_total: 0,
        swap_free: 0,
    };
    assert_eq!(get_memory_used_percentage(m), MetricValue { num: 0, den: 1 });
}
