//! Snapshot diffing for monotonic kernel counters.
//!
//! Kernel counters (network bytes, disk sectors, CPU ticks) grow
//! monotonically between reboots but reset to zero on reboot or wrap.
//! The engine publishes increments, never raw values, and a published
//! counter must not move backward.  The counter-reset policy is
//! *clamp to zero*: when a raw reading is smaller than the comparison
//! basis, the published increment is 0.
//!
//! What the basis is differs by producer.  The CPU producer stores a
//! snapshot and replaces it on every successful reading, so after a
//! reset its next increment is measured from the new, smaller
//! reading.  The network and disk counters keep no snapshot: the
//! published counter value itself is the basis
//! ([`crate::registry::WriteOp::CounterTo`] raises it to
//! `max(old, raw)`), so after a reset the published value holds its
//! high-water mark and raw growth is published again only once the
//! raw total passes it.

use vstd::prelude::*;

verus! {

/// The increment published for a monotonic counter between two raw
/// readings, under the clamp-to-zero reset policy.
pub open spec fn counter_delta_spec(now: u64, prev: u64) -> u64 {
    if prev <= now {
        (now - prev) as u64
    } else {
        0
    }
}

/// Saturating sum of two counters.
pub open spec fn cap_add(a: u64, b: u64) -> u64 {
    if a + b > u64::MAX {
        u64::MAX
    } else {
        (a + b) as u64
    }
}

/// Saturating product of two counters.
pub open spec fn cap_mul(a: u64, b: u64) -> u64 {
    if a * b > u64::MAX {
        u64::MAX
    } else {
        (a * b) as u64
    }
}

/// Saturating product, executable counterpart of [`cap_mul`].
pub fn sat_mul(a: u64, b: u64) -> (r: u64)
    ensures
        r == cap_mul(a, b),
{
    match a.checked_mul(b) {
        Some(v) => v,
        None => u64::MAX,
    }
}

/// Increment between the previous raw reading and the current one.
/// Never negative; 0 when the counter moved backwards (a reset).
pub fn counter_delta(now: u64, prev: u64) -> (r: u64)
    ensures
        r == counter_delta_spec(now, prev),
        prev <= now ==> r == now - prev,
        now < prev ==> r == 0,
{
    if prev <= now {
        now - prev
    } else {
        0
    }
}

} // verus!
