//! Memory usage derived from one `/proc/meminfo` reading.
//!
//! The used percentage is `(total - available) / total`, where
//! `available` is the kernel's estimate when present and the classic
//! `free + buffers + cached` fallback on old kernels.  All arithmetic
//! saturates, an `available` value above `total` clamps the used amount
//! to zero, and a zero total yields a ratio of 0 rather than a fault.

use vstd::prelude::*;

use crate::delta::cap_add;
use crate::registry::ratio_or_zero;
use crate::registry::MetricValue;

verus! {

/// Raw values of one `/proc/meminfo` reading, in kilobytes.
#[derive(Clone, Copy, PartialEq, Eq, Structural, Debug)]
pub struct MemInfoReading {
    pub mem_total: u64,
    pub mem_free: u64,
    /// The kernel's availability estimate; absent on old kernels.
    pub mem_available: Option<u64>,
    pub buffers: u64,
    pub cached: u64,
    pub swap_total: u64,
    pub swap_free: u64,
}

/// Available memory: the kernel estimate, or `free + buffers + cached`
/// when the estimate is absent.
pub open spec fn available_kb_spec(m: MemInfoReading) -> u64 {
    match m.mem_available {
        Some(v) => v,
        None => cap_add(cap_add(m.mem_free, m.buffers), m.cached),
    }
}

/// Used memory: total minus available, clamped at zero.
pub open spec fn used_kb_spec(m: MemInfoReading) -> u64 {
    if available_kb_spec(m) <= m.mem_total {
        (m.mem_total - available_kb_spec(m)) as u64
    } else {
        0
    }
}

/// Used swap: swap total minus swap free, clamped at zero.
pub open spec fn swap_used_kb_spec(m: MemInfoReading) -> u64 {
    if m.swap_free <= m.swap_total {
        (m.swap_total - m.swap_free) as u64
    } else {
        0
    }
}

/// The fraction of memory currently used, as an exact ratio in [0, 1].
pub fn get_memory_used_percentage(m: MemInfoReading) -> (r: MetricValue)
    ensures
        r == ratio_or_zero(used_kb_spec(m), m.mem_total),
        r.num <= r.den,
        r.den >= 1,
{
    let available = match m.mem_available {
        Some(v) => v,
        None => m.mem_free.saturating_add(m.buffers).saturating_add(m.cached),
    };
    let used = m.mem_total.saturating_sub(available);
    if m.mem_total == 0 {
        MetricValue { num: 0, den: 1 }
    } else {
        MetricValue { num: used, den: m.mem_total }
    }
}

/// Detailed memory statistics derived from one reading.
#[derive(Clone, Copy, PartialEq, Eq, Structural, Debug)]
pub struct MemoryStats {
    /// Total physical memory in kilobytes.
    pub total_kb: u64,
    /// Free memory in kilobytes.
    pub free_kb: u64,
    /// Available memory in kilobytes.
    pub available_kb: u64,
    /// Used memory in kilobytes.
    pub used_kb: u64,
    /// Fraction of memory used, in [0, 1].
    pub used_percent: MetricValue,
    /// Buffers memory in kilobytes.
    pub buffers_kb: u64,
    /// Cached memory in kilobytes.
    pub cached_kb: u64,
    /// Swap total in kilobytes.
    pub swap_total_kb: u64,
    /// Swap free in kilobytes.
    pub swap_free_kb: u64,
    /// Swap used in kilobytes.
    pub swap_used_kb: u64,
    /// Fraction of swap used, in [0, 1].
    pub swap_used_percent: MetricValue,
}

impl MemoryStats {
    /// Derive the full statistics from one raw reading.
    pub fn from_meminfo(m: MemInfoReading) -> (r: MemoryStats)
        ensures
            r.total_kb == m.mem_total,
            r.free_kb == m.mem_free,
            r.available_kb == available_kb_spec(m),
            r.used_kb == used_kb_spec(m),
            r.used_percent == ratio_or_zero(used_kb_spec(m), m.mem_total),
            r.buffers_kb == m.buffers,
            r.cached_kb == m.cached,
            r.swap_total_kb == m.swap_total,
            r.swap_free_kb == m.swap_free,
            r.swap_used_kb == swap_used_kb_spec(m),
            r.swap_used_percent == ratio_or_zero(swap_used_kb_spec(m), m.swap_total),
            r.used_percent.num <= r.used_percent.den,
            r.swap_used_percent.num <= r.swap_used_percent.den,
    {
        let available_kb = match m.mem_available {
            Some(v) => v,
            None => m.mem_free.saturating_add(m.buffers).saturating_add(m.cached),
        };
        let used_kb = m.mem_total.saturating_sub(available_kb);
        let used_percent = get_memory_used_percentage(m);
        let swap_used_kb = m.swap_total.saturating_sub(m.swap_free);
        let swap_used_percent = if m.swap_total == 0 {
            MetricValue { num: 0, den: 1 }
        } else {
            MetricValue { num: swap_used_kb, den: m.swap_total }
        };
        MemoryStats {
            total_kb: m.mem_total,
            free_kb: m.mem_free,
            available_kb,
            used_kb,
            used_percent,
            buffers_kb: m.buffers,
            cached_kb: m.cached,
            swap_total_kb: m.swap_total,
            swap_free_kb: m.swap_free,
            swap_used_kb,
            swap_used_percent,
        }
    }
}

} // verus!
