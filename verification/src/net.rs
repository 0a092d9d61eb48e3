//! Network interface counters.
//!
//! `/proc/net/dev` exposes per-interface cumulative byte, error and
//! drop counters since boot.  Errors and drops are folded into one
//! error counter per direction; differences between two readings use
//! the clamp-to-zero reset policy of [`crate::delta`].

use vstd::prelude::*;

use crate::delta::cap_add;
use crate::delta::counter_delta_spec;

verus! {

/// One interface's raw counters as read from `/proc/net/dev`.
#[derive(Clone, PartialEq, Eq, Debug)]
pub struct RawInterfaceCounters {
    pub name: String,
    pub recv_bytes: u64,
    pub recv_errs: u64,
    pub recv_drop: u64,
    pub sent_bytes: u64,
    pub sent_errs: u64,
    pub sent_drop: u64,
}

/// Mathematical image of a [`RawInterfaceCounters`].
#[verifier::ext_equal]
pub struct RawInterfaceCountersV {
    pub name: Seq<char>,
    pub recv_bytes: u64,
    pub recv_errs: u64,
    pub recv_drop: u64,
    pub sent_bytes: u64,
    pub sent_errs: u64,
    pub sent_drop: u64,
}

impl View for RawInterfaceCounters {
    type V = RawInterfaceCountersV;

    open spec fn view(&self) -> RawInterfaceCountersV {
        RawInterfaceCountersV {
            name: self.name@,
            recv_bytes: self.recv_bytes,
            recv_errs: self.recv_errs,
            recv_drop: self.recv_drop,
            sent_bytes: self.sent_bytes,
            sent_errs: self.sent_errs,
            sent_drop: self.sent_drop,
        }
    }
}

impl DeepView for RawInterfaceCounters {
    type V = RawInterfaceCountersV;

    open spec fn deep_view(&self) -> RawInterfaceCountersV {
        self@
    }
}

/// The statistics of a single network interface.
#[derive(Clone, PartialEq, Eq, Debug)]
pub struct InterfaceStats {
    /// Name of the network interface.
    pub name: String,
    /// Total bytes received.
    pub recv_bytes: u64,
    /// Bad packets received and packets dropped.
    pub recv_errors: u64,
    /// Total bytes sent.
    pub sent_bytes: u64,
    /// Transmission errors and packets dropped during transmission.
    pub sent_errors: u64,
    /// Optional period in milliseconds.  If set, all values are
    /// increments over this period rather than totals since boot.
    pub period_ms: Option<u64>,
}

/// Mathematical image of an [`InterfaceStats`].
#[verifier::ext_equal]
pub struct InterfaceStatsV {
    pub name: Seq<char>,
    pub recv_bytes: u64,
    pub recv_errors: u64,
    pub sent_bytes: u64,
    pub sent_errors: u64,
    pub period_ms: Option<u64>,
}

impl View for InterfaceStats {
    type V = InterfaceStatsV;

    open spec fn view(&self) -> InterfaceStatsV {
        InterfaceStatsV {
            name: self.name@,
            recv_bytes: self.recv_bytes,
            recv_errors: self.recv_errors,
            sent_bytes: self.sent_bytes,
            sent_errors: self.sent_errors,
            period_ms: self.period_ms,
        }
    }
}

impl DeepView for InterfaceStats {
    type V = InterfaceStatsV;

    open spec fn deep_view(&self) -> InterfaceStatsV {
        self@
    }
}

/// The statistics derived from one raw reading: errors and drops are
/// folded together (saturating), and no period is set.
pub open spec fn stats_of_raw(r: RawInterfaceCountersV) -> InterfaceStatsV {
    InterfaceStatsV {
        name: r.name,
        recv_bytes: r.recv_bytes,
        recv_errors: cap_add(r.recv_errs, r.recv_drop),
        sent_bytes: r.sent_bytes,
        sent_errors: cap_add(r.sent_errs, r.sent_drop),
        period_ms: None,
    }
}

/// First interface of this name, if present.
pub open spec fn find_interface_spec(s: Seq<InterfaceStatsV>, name: Seq<char>) -> Option<
    InterfaceStatsV,
>
    decreases s.len(),
{
    if s.len() == 0 {
        None
    } else if s[0].name == name {
        Some(s[0])
    } else {
        find_interface_spec(s.skip(1), name)
    }
}

/// The field-wise increment of `now` over `prev`, clamped at zero,
/// tagged with the period it covers.
pub open spec fn diff_one_spec(now: InterfaceStatsV, prev: InterfaceStatsV, period_ms: u64)
    -> InterfaceStatsV {
    InterfaceStatsV {
        name: prev.name,
        recv_bytes: counter_delta_spec(now.recv_bytes, prev.recv_bytes),
        recv_errors: counter_delta_spec(now.recv_errors, prev.recv_errors),
        sent_bytes: counter_delta_spec(now.sent_bytes, prev.sent_bytes),
        sent_errors: counter_delta_spec(now.sent_errors, prev.sent_errors),
        period_ms: Some(period_ms),
    }
}

/// Increments for every interface of `prev` still present in `now`;
/// interfaces that vanished between the readings are dropped.
pub open spec fn period_diff_spec(
    prev: Seq<InterfaceStatsV>,
    now: Seq<InterfaceStatsV>,
    period_ms: u64,
) -> Seq<InterfaceStatsV>
    decreases prev.len(),
{
    if prev.len() == 0 {
        Seq::empty()
    } else {
        let rest = period_diff_spec(prev.skip(1), now, period_ms);
        match find_interface_spec(now, prev[0].name) {
            None => rest,
            Some(cur) => seq![diff_one_spec(cur, prev[0], period_ms)] + rest,
        }
    }
}

/// Network statistics by interface, one entry per interface.
#[derive(Clone, PartialEq, Eq, Debug)]
pub struct NetworkStats {
    /// Statistics for all interfaces.
    pub interfaces: Vec<InterfaceStats>,
}

impl NetworkStats {
    /// Build the statistics from one raw `/proc/net/dev` reading.
    pub fn from_raw(raw: &Vec<RawInterfaceCounters>) -> (r: NetworkStats)
        ensures
            r.interfaces.deep_view() == raw.deep_view().map_values(
                |x: RawInterfaceCountersV| stats_of_raw(x),
            ),
    {
        let n = raw.len();
        let mut out: Vec<InterfaceStats> = Vec::new();
        let mut i: usize = 0;
        while i < n
            invariant
                0 <= i <= n,
                n == raw@.len(),
                out@.len() == i,
                forall|k: int|
                    0 <= k < i ==> out.deep_view()[k] == stats_of_raw(
                        #[trigger] raw.deep_view()[k],
                    ),
            decreases n - i,
        {
            let rc = &raw[i];
            out.push(
                InterfaceStats {
                    name: rc.name.clone(),
                    recv_bytes: rc.recv_bytes,
                    recv_errors: rc.recv_errs.saturating_add(rc.recv_drop),
                    sent_bytes: rc.sent_bytes,
                    sent_errors: rc.sent_errs.saturating_add(rc.sent_drop),
                    period_ms: None,
                },
            );
            i += 1;
        }
        proof {
            assert(out.deep_view() =~~= raw.deep_view().map_values(
                |x: RawInterfaceCountersV| stats_of_raw(x),
            ));
        }
        NetworkStats { interfaces: out }
    }

    /// First interface of this name, returned by value.
    pub fn find(&self, name: &str) -> (r: Option<InterfaceStats>)
        ensures
            match r {
                Some(st) => find_interface_spec(self.interfaces.deep_view(), name@) == Some(st@),
                None => find_interface_spec(self.interfaces.deep_view(), name@) is None,
            },
    {
        let n = self.interfaces.len();
        proof {
            assert(self.interfaces.deep_view().skip(0) =~= self.interfaces.deep_view());
        }
        let mut i: usize = 0;
        while i < n
            invariant
                0 <= i <= n,
                n == self.interfaces@.len(),
                find_interface_spec(self.interfaces.deep_view(), name@) == find_interface_spec(
                    self.interfaces.deep_view().skip(i as int),
                    name@,
                ),
            decreases n - i,
        {
            proof {
                assert(self.interfaces.deep_view().skip(i as int)[0]
                    == self.interfaces.deep_view()[i as int]);
                assert(self.interfaces.deep_view().skip(i as int).skip(1)
                    =~= self.interfaces.deep_view().skip(i + 1));
            }
            if crate::registry::str_eq(self.interfaces[i].name.as_str(), name) {
                let x = &self.interfaces[i];
                let copy = InterfaceStats {
                    name: x.name.clone(),
                    recv_bytes: x.recv_bytes,
                    recv_errors: x.recv_errors,
                    sent_bytes: x.sent_bytes,
                    sent_errors: x.sent_errors,
                    period_ms: x.period_ms,
                };
                proof {
                    assert(copy@ =~~= self.interfaces.deep_view()[i as int]);
                }
                return Some(copy);
            }
            i += 1;
        }
        proof {
            assert(self.interfaces.deep_view().skip(n as int)
                =~= Seq::<InterfaceStatsV>::empty());
        }
        None
    }

    /// The increments between two readings separated by `period_ms`
    /// milliseconds: for every interface of `prev` still present in
    /// `now`, the clamped field-wise delta.
    pub fn diff(now: &NetworkStats, prev: &NetworkStats, period_ms: u64) -> (r: NetworkStats)
        ensures
            r.interfaces.deep_view() == period_diff_spec(
                prev.interfaces.deep_view(),
                now.interfaces.deep_view(),
                period_ms,
            ),
    {
        let ghost prev_v = prev.interfaces.deep_view();
        let ghost now_v = now.interfaces.deep_view();
        let n = prev.interfaces.len();
        let mut out: Vec<InterfaceStats> = Vec::new();
        proof {
            assert(prev_v.skip(0) =~= prev_v);
            assert(out.deep_view() =~~= Seq::<InterfaceStatsV>::empty());
            assert(out.deep_view() + period_diff_spec(prev_v, now_v, period_ms)
                =~~= period_diff_spec(prev_v, now_v, period_ms));
        }
        let mut i: usize = 0;
        while i < n
            invariant
                0 <= i <= n,
                n == prev.interfaces@.len(),
                prev_v == prev.interfaces.deep_view(),
                now_v == now.interfaces.deep_view(),
                period_diff_spec(prev_v, now_v, period_ms) == out.deep_view()
                    + period_diff_spec(prev_v.skip(i as int), now_v, period_ms),
            decreases n - i,
        {
            proof {
                assert(prev_v.skip(i as int)[0] == prev_v[i as int]);
                assert(prev_v.skip(i as int).skip(1) =~= prev_v.skip(i + 1));
            }
            let val_prev = &prev.interfaces[i];
            let found = now.find(val_prev.name.as_str());
            match found {
                None => (),
                Some(val_now) => {
                    let ghost out0 = out.deep_view();
                    out.push(
                        InterfaceStats {
                            name: val_prev.name.clone(),
                            recv_bytes: crate::delta::counter_delta(
                                val_now.recv_bytes,
                                val_prev.recv_bytes,
                            ),
                            recv_errors: crate::delta::counter_delta(
                                val_now.recv_errors,
                                val_prev.recv_errors,
                            ),
                            sent_bytes: crate::delta::counter_delta(
                                val_now.sent_bytes,
                                val_prev.sent_bytes,
                            ),
                            sent_errors: crate::delta::counter_delta(
                                val_now.sent_errors,
                                val_prev.sent_errors,
                            ),
                            period_ms: Some(period_ms),
                        },
                    );
                    proof {
                        assert(out.deep_view() =~~= out0.push(
                            diff_one_spec(val_now@, prev_v[i as int], period_ms),
                        ));
                        assert(out0.push(diff_one_spec(val_now@, prev_v[i as int], period_ms))
                            + period_diff_spec(prev_v.skip(i + 1), now_v, period_ms) =~~= out0 + (
                        seq![diff_one_spec(val_now@, prev_v[i as int], period_ms)]
                            + period_diff_spec(prev_v.skip(i + 1), now_v, period_ms)));
                    }
                },
            }
            i += 1;
        }
        proof {
            assert(prev_v.skip(n as int) =~= Seq::<InterfaceStatsV>::empty());
        }
        NetworkStats { interfaces: out }
    }
}

} // verus!
