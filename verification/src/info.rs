//! Static information about the node.

use vstd::prelude::*;

verus! {

/// Information about the node, read once from the kernel at startup
/// (hostname and architecture) and per pass for the uptime.
#[derive(Clone, PartialEq, Eq, Debug)]
pub struct NodeInfo {
    /// Hostname.
    pub hostname: String,
    /// System architecture (e.g. `aarch64` or `x86_64`).
    pub arch: String,
    /// Uptime in whole seconds.
    pub uptime_secs: u64,
}

} // verus!
