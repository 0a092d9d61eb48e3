//! CPU metrics: load averages and tick-based usage ratios.
//!
//! `/proc/stat` exposes, per core, the ticks spent in each mode since
//! boot.  A usage percentage is derived from two snapshots as
//! `(total_ticks_delta - idle_ticks_delta) / total_ticks_delta`; the
//! deltas use the clamp-to-zero policy of [`crate::delta`], and a pass in
//! which no ticks elapsed (`total_ticks_delta == 0`) yields 0, not a
//! division fault.

use vstd::prelude::*;

use crate::delta::cap_add;
use crate::delta::counter_delta_spec;
use crate::registry::MetricValue;

verus! {

/// Load averages read from `/proc/loadavg`, carried in hundredths
/// (the kernel reports exactly two decimal places).
#[derive(Clone, Copy, PartialEq, Eq, Structural, Debug)]
pub struct LoadAverages {
    /// Load average over 1 minute, in hundredths.
    pub one: u64,
    /// Load average over 5 minutes, in hundredths.
    pub five: u64,
    /// Load average over 15 minutes, in hundredths.
    pub fifteen: u64,
}

/// One core's raw tick counters as read from `/proc/stat`.  The
/// optional fields are absent on old kernels and then count as zero.
#[derive(Clone, Copy, PartialEq, Eq, Structural, Debug)]
pub struct RawCpuTicks {
    pub user: u64,
    pub nice: u64,
    pub system: u64,
    pub idle: u64,
    pub iowait: Option<u64>,
    pub irq: Option<u64>,
    pub softirq: Option<u64>,
    pub steal: Option<u64>,
}

/// Aggregated tick counts of one core (or of the whole machine) at one
/// point in time since boot.
#[derive(Clone, Copy, PartialEq, Eq, Structural, Debug)]
pub struct CpuTime {
    /// Ticks spent idling.
    pub idle_ticks: u64,
    /// Ticks spent doing things since boot.
    pub total_ticks: u64,
}

/// An optional raw counter, with absence counting as zero.
pub open spec fn opt_ticks(o: Option<u64>) -> u64 {
    match o {
        Some(n) => n,
        None => 0,
    }
}

/// Total ticks of one raw reading: every mode counted once (guest time
/// is already contained in user time).  Sums saturate instead of
/// wrapping.
pub open spec fn raw_total(r: RawCpuTicks) -> u64 {
    cap_add(
        cap_add(
            cap_add(
                cap_add(
                    cap_add(cap_add(cap_add(r.user, r.nice), r.system), r.idle),
                    opt_ticks(r.iowait),
                ),
                opt_ticks(r.irq),
            ),
            opt_ticks(r.softirq),
        ),
        opt_ticks(r.steal),
    )
}

/// Idle ticks of one raw reading: idle plus I/O wait.
pub open spec fn raw_idle(r: RawCpuTicks) -> u64 {
    cap_add(r.idle, opt_ticks(r.iowait))
}

/// The [`CpuTime`] summarising one raw reading.
pub open spec fn cpu_time_of(r: RawCpuTicks) -> CpuTime {
    CpuTime { idle_ticks: raw_idle(r), total_ticks: raw_total(r) }
}

/// Field-wise saturating sum of a sequence of [`CpuTime`]s, folded from
/// the left starting at zero.
pub open spec fn sum_times(s: Seq<CpuTime>) -> CpuTime
    decreases s.len(),
{
    if s.len() == 0 {
        CpuTime { idle_ticks: 0, total_ticks: 0 }
    } else {
        let acc = sum_times(s.drop_last());
        CpuTime {
            idle_ticks: cap_add(acc.idle_ticks, s.last().idle_ticks),
            total_ticks: cap_add(acc.total_ticks, s.last().total_ticks),
        }
    }
}

/// The usage ratio between two snapshots of one [`CpuTime`]:
/// `(total_delta - idle_delta) / total_delta`, with the deltas clamped
/// at zero, a zero total delta yielding 0/1, and an idle delta larger
/// than the total delta (inconsistent counters) clamped to a ratio of 0.
pub open spec fn usage_ratio_spec(now: CpuTime, prev: CpuTime) -> MetricValue {
    let total = counter_delta_spec(now.total_ticks, prev.total_ticks);
    let idle = counter_delta_spec(now.idle_ticks, prev.idle_ticks);
    if total == 0 {
        MetricValue { num: 0, den: 1 }
    } else if idle <= total {
        MetricValue { num: (total - idle) as u64, den: total }
    } else {
        MetricValue { num: 0, den: total }
    }
}

impl CpuTime {
    /// Field-wise saturating sum.
    pub fn saturating_add(self, rhs: CpuTime) -> (r: CpuTime)
        ensures
            r.idle_ticks == cap_add(self.idle_ticks, rhs.idle_ticks),
            r.total_ticks == cap_add(self.total_ticks, rhs.total_ticks),
    {
        CpuTime {
            idle_ticks: self.idle_ticks.saturating_add(rhs.idle_ticks),
            total_ticks: self.total_ticks.saturating_add(rhs.total_ticks),
        }
    }

    /// Field-wise increment since `prev`, clamped at zero when a
    /// counter moved backwards.
    pub fn delta(self, prev: CpuTime) -> (r: CpuTime)
        ensures
            r.idle_ticks == counter_delta_spec(self.idle_ticks, prev.idle_ticks),
            r.total_ticks == counter_delta_spec(self.total_ticks, prev.total_ticks),
    {
        CpuTime {
            idle_ticks: crate::delta::counter_delta(self.idle_ticks, prev.idle_ticks),
            total_ticks: crate::delta::counter_delta(self.total_ticks, prev.total_ticks),
        }
    }
}

/// CPU usage at a point in time since boot: the machine-wide tick
/// counts and the per-core tick counts from `/proc/stat`.
#[derive(Clone, PartialEq, Eq, Debug)]
pub struct CpuUsage {
    /// Total CPU time over all cores.
    pub total_ticks: CpuTime,
    /// Per-core CPU time.
    pub per_core_ticks: Vec<CpuTime>,
}

impl CpuUsage {
    /// A snapshot is faithful to a raw reading when its per-core times
    /// summarise the raw rows one for one and its total is their sum.
    pub open spec fn summarises(self, raw: Seq<RawCpuTicks>) -> bool {
        &&& self.per_core_ticks@.len() == raw.len()
        &&& forall|i: int|
            0 <= i < raw.len() ==> self.per_core_ticks@[i] == cpu_time_of(#[trigger] raw[i])
        &&& self.total_ticks == sum_times(self.per_core_ticks@)
    }

    /// Aggregate one raw `/proc/stat` reading into a snapshot.
    pub fn from_raw(raw: &Vec<RawCpuTicks>) -> (r: CpuUsage)
        ensures
            r.summarises(raw@),
    {
        let n = raw.len();
        let mut per_core: Vec<CpuTime> = Vec::new();
        let mut i: usize = 0;
        while i < n
            invariant
                0 <= i <= n,
                n == raw@.len(),
                per_core@.len() == i,
                forall|k: int| 0 <= k < i ==> per_core@[k] == cpu_time_of(#[trigger] raw@[k]),
            decreases n - i,
        {
            let rc = raw[i];
            let busy1 = rc.user.saturating_add(rc.nice);
            let busy2 = busy1.saturating_add(rc.system);
            let busy3 = busy2.saturating_add(rc.idle);
            let iowait = match rc.iowait {
                Some(v) => v,
                None => 0,
            };
            let irq = match rc.irq {
                Some(v) => v,
                None => 0,
            };
            let softirq = match rc.softirq {
                Some(v) => v,
                None => 0,
            };
            let steal = match rc.steal {
                Some(v) => v,
                None => 0,
            };
            let total = busy3.saturating_add(iowait).saturating_add(irq).saturating_add(
                softirq,
            ).saturating_add(steal);
            let idle_ticks = rc.idle.saturating_add(iowait);
            per_core.push(CpuTime { idle_ticks, total_ticks: total });
            i += 1;
        }
        let mut total_ticks = CpuTime { idle_ticks: 0, total_ticks: 0 };
        let mut j: usize = 0;
        while j < n
            invariant
                0 <= j <= n,
                n == per_core@.len(),
                total_ticks == sum_times(per_core@.take(j as int)),
            decreases n - j,
        {
            total_ticks = total_ticks.saturating_add(per_core[j]);
            proof {
                assert(per_core@.take(j + 1).drop_last() =~= per_core@.take(j as int));
                assert(per_core@.take(j + 1).last() == per_core@[j as int]);
            }
            j += 1;
        }
        proof {
            assert(per_core@.take(n as int) =~= per_core@);
        }
        CpuUsage { total_ticks, per_core_ticks: per_core }
    }

    /// Machine-wide usage ratio between this snapshot and the previous
    /// one.  The result is an exact ratio in [0, 1]: the numerator
    /// never exceeds the denominator, and a pass without elapsed ticks
    /// yields 0.
    pub fn percentage_all_cores(&self, prev: &CpuUsage) -> (r: MetricValue)
        ensures
            r == usage_ratio_spec(self.total_ticks, prev.total_ticks),
            r.num <= r.den,
            r.den >= 1,
    {
        usage_ratio(self.total_ticks, prev.total_ticks)
    }

    /// Per-core usage ratios between this snapshot and the previous
    /// one, paired core by core (extra cores present in only one of
    /// the snapshots are ignored).
    pub fn percentage_per_core(&self, prev: &CpuUsage) -> (r: Vec<MetricValue>)
        ensures
            r@.len() == if self.per_core_ticks@.len() <= prev.per_core_ticks@.len() {
                self.per_core_ticks@.len()
            } else {
                prev.per_core_ticks@.len()
            },
            forall|i: int|
                0 <= i < r@.len() ==> r@[i] == usage_ratio_spec(
                    #[trigger] self.per_core_ticks@[i],
                    prev.per_core_ticks@[i],
                ),
            forall|i: int| 0 <= i < r@.len() ==> (#[trigger] r@[i]).num <= r@[i].den,
            forall|i: int| 0 <= i < r@.len() ==> (#[trigger] r@[i]).den >= 1,
    {
        let n = if self.per_core_ticks.len() <= prev.per_core_ticks.len() {
            self.per_core_ticks.len()
        } else {
            prev.per_core_ticks.len()
        };
        let mut out: Vec<MetricValue> = Vec::new();
        let mut i: usize = 0;
        while i < n
            invariant
                0 <= i <= n,
                n <= self.per_core_ticks@.len(),
                n <= prev.per_core_ticks@.len(),
                out@.len() == i,
                forall|k: int|
                    0 <= k < i ==> out@[k] == usage_ratio_spec(
                        #[trigger] self.per_core_ticks@[k],
                        prev.per_core_ticks@[k],
                    ),
                forall|k: int| 0 <= k < i ==> (#[trigger] out@[k]).num <= out@[k].den,
                forall|k: int| 0 <= k < i ==> (#[trigger] out@[k]).den >= 1,
            decreases n - i,
        {
            out.push(usage_ratio(self.per_core_ticks[i], prev.per_core_ticks[i]));
            i += 1;
        }
        out
    }
}

/// The CPU usage ratio always lies in [0, 1]: the numerator never
/// exceeds the denominator and the denominator is positive; and a
/// pass in which no ticks elapsed yields exactly 0 (as 0/1), not a
/// division fault.
pub proof fn lemma_usage_ratio_bounds(now: CpuTime, prev: CpuTime)
    ensures
        usage_ratio_spec(now, prev).num <= usage_ratio_spec(now, prev).den,
        usage_ratio_spec(now, prev).den >= 1,
        counter_delta_spec(now.total_ticks, prev.total_ticks) == 0 ==> usage_ratio_spec(now, prev)
            == (MetricValue { num: 0, den: 1 }),
{
}

/// Usage ratio between two snapshots of one [`CpuTime`].
fn usage_ratio(now: CpuTime, prev: CpuTime) -> (r: MetricValue)
    ensures
        r == usage_ratio_spec(now, prev),
        r.num <= r.den,
        r.den >= 1,
{
    let total = crate::delta::counter_delta(now.total_ticks, prev.total_ticks);
    let idle = crate::delta::counter_delta(now.idle_ticks, prev.idle_ticks);
    if total == 0 {
        MetricValue { num: 0, den: 1 }
    } else if idle <= total {
        MetricValue { num: total - idle, den: total }
    } else {
        MetricValue { num: 0, den: total }
    }
}

} // verus!
